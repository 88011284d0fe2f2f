use vstd::prelude::*;

verus! {

/// Every way an encode or decode call can fail.
#[derive(Clone, Copy, Debug, PartialEq, Eq, Structural)]
pub enum CryptoError {
    /// The PEM text is not an SPKI-encoded RSA public key that is accepted.
    KeyParseError,
    /// The plaintext exceeds the OAEP capacity of the key.
    PlaintextTooLong,
    /// The underlying encryption primitive reported a failure.
    EncryptionError,
    /// The transport text is not valid standard base64.
    Base64Error,
    /// The recovered message does not have the expected padding structure.
    InvalidPadding,
    /// The recovered payload is not valid UTF-8.
    Utf8Error,
}

impl CryptoError {
    /// A short human-readable description of the error.
    pub fn message(&self) -> (r: String)
        ensures
            r@ == (match *self {
                CryptoError::KeyParseError => "failed to parse public key"@,
                CryptoError::PlaintextTooLong => "plaintext too long for key"@,
                CryptoError::EncryptionError => "encryption failed"@,
                CryptoError::Base64Error => "failed to decode base64"@,
                CryptoError::InvalidPadding => "decryption failed: invalid padding"@,
                CryptoError::Utf8Error => "payload is not valid UTF-8"@,
            }),
    {
        match self {
            CryptoError::KeyParseError => String::from_str("failed to parse public key"),
            CryptoError::PlaintextTooLong => String::from_str("plaintext too long for key"),
            CryptoError::EncryptionError => String::from_str("encryption failed"),
            CryptoError::Base64Error => String::from_str("failed to decode base64"),
            CryptoError::InvalidPadding => String::from_str("decryption failed: invalid padding"),
            CryptoError::Utf8Error => String::from_str("payload is not valid UTF-8"),
        }
    }
}

} // verus!
