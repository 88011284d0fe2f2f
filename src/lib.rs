//! A two-direction RSA message exchange over one public key: messages are
//! sealed with RSA-OAEP (SHA-256), and replies produced by the private-key
//! holder's raw RSA operation are opened with the public exponent and
//! PKCS#1 type-1 padding removal.

pub mod bytes;
pub mod error;
pub mod key;
pub mod padding;
pub mod random;
pub mod decoder;
pub mod encoder;
pub mod text;
