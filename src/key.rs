//! The RSA public key shared by both directions, parsed once from PEM text.

use vstd::prelude::*;
use crate::bytes::{be_value, is_minimal_be};
use crate::error::CryptoError;

verus! {

#[verifier::external_type_specification]
#[verifier::external_body]
pub struct ExRsaPublicKey(rsa::RsaPublicKey);

#[verifier::external_type_specification]
#[verifier::external_body]
pub struct ExSpkiError(rsa::pkcs8::spki::Error);

#[verifier::external_type_specification]
#[verifier::external_body]
pub struct ExRsaError(rsa::Error);

/// Whether PEM text is accepted as an SPKI-encoded RSA public key.
pub uninterp spec fn pem_accepted(pem: Seq<char>) -> bool;

/// The modulus of the key that accepted PEM text holds, shortest big-endian form.
pub uninterp spec fn pem_modulus(pem: Seq<char>) -> Seq<u8>;

/// The public exponent of the key that accepted PEM text holds, shortest
/// big-endian form.
pub uninterp spec fn pem_exponent(pem: Seq<char>) -> Seq<u8>;

/// Output length of SHA-256, the OAEP hash and mask-generation hash.
pub const HASH_LEN: usize = 32;

/// Bytes of a modulus-sized block that OAEP keeps for its own use.
pub const OAEP_OVERHEAD: usize = 2 * HASH_LEN + 2;

/// The longest modulus the parser accepts, in bytes (4096 bits).
pub const MAX_MODULUS_BYTES: usize = 512;

/// Relies on `DecodePublicKey::from_public_key_pem` for `rsa::RsaPublicKey`,
/// then on `PublicKeyParts::n`, `PublicKeyParts::e` and `BigUint::to_bytes_be`
/// to read the parsed key's modulus and exponent. The outcome depends on the
/// text alone. The parser builds the key with `RsaPublicKey::new`, which
/// rejects a modulus over 4096 bits, an even modulus and an exponent below 2,
/// so the modulus is positive and both byte forms start with a nonzero byte.
#[verifier::external_body]
fn parse_pem(pem: &str) -> (r: Result<(rsa::RsaPublicKey, Vec<u8>, Vec<u8>), rsa::pkcs8::spki::Error>)
    ensures
        r is Ok <==> pem_accepted(pem@),
        r is Ok ==> r->Ok_0.1@ == pem_modulus(pem@) && r->Ok_0.2@ == pem_exponent(pem@),
        r is Ok ==> r->Ok_0.1@.len() >= 1 && r->Ok_0.1@[0] != 0 && r->Ok_0.1@.len() <= MAX_MODULUS_BYTES,
        r is Ok ==> r->Ok_0.2@.len() >= 1 && r->Ok_0.2@[0] != 0,
{
    let key = <rsa::RsaPublicKey as rsa::pkcs8::DecodePublicKey>::from_public_key_pem(pem)?;
    let n = rsa::traits::PublicKeyParts::n(&key).to_bytes_be();
    let e = rsa::traits::PublicKeyParts::e(&key).to_bytes_be();
    Ok((key, n, e))
}

/// An RSA public key: the parsed key, and its modulus and exponent as
/// big-endian bytes. Only `from_pem` builds one, so the byte forms are those of
/// the parsed key, which passed the key checks of the parser.
pub struct PublicKey {
    inner: rsa::RsaPublicKey,
    modulus: Vec<u8>,
    exponent: Vec<u8>,
}

impl PublicKey {
    /// The modulus, shortest big-endian form.
    pub closed spec fn modulus_view(&self) -> Seq<u8> {
        self.modulus@
    }

    /// The public exponent, shortest big-endian form.
    pub closed spec fn exponent_view(&self) -> Seq<u8> {
        self.exponent@
    }

    /// The modulus `n`.
    pub open spec fn n(&self) -> nat {
        be_value(self.modulus_view())
    }

    /// The public exponent `e`.
    pub open spec fn e(&self) -> nat {
        be_value(self.exponent_view())
    }

    /// The modulus length in bytes: the length of every ciphertext.
    pub open spec fn size_spec(&self) -> nat {
        self.modulus_view().len()
    }

    pub open spec fn wf(&self) -> bool {
        &&& is_minimal_be(self.modulus_view())
        &&& is_minimal_be(self.exponent_view())
        &&& self.n() > 0
        &&& self.modulus_view().len() <= MAX_MODULUS_BYTES
    }

    /// Parses an SPKI PEM public key.
    pub fn from_pem(pem: &str) -> (r: Result<PublicKey, CryptoError>)
        ensures
            r is Ok <==> pem_accepted(pem@),
            r is Ok ==> r->Ok_0.wf(),
            r is Ok ==> r->Ok_0.modulus_view() == pem_modulus(pem@),
            r is Ok ==> r->Ok_0.exponent_view() == pem_exponent(pem@),
            r is Err ==> r->Err_0 == CryptoError::KeyParseError,
    {
        match parse_pem(pem) {
            Ok((inner, modulus, exponent)) => {
                proof {
                    crate::bytes::lemma_leading_nonzero_positive(modulus@);
                }
                Ok(PublicKey { inner, modulus, exponent })
            },
            Err(_) => Err(CryptoError::KeyParseError),
        }
    }

    /// The modulus in shortest big-endian form.
    pub fn modulus(&self) -> (r: &Vec<u8>)
        ensures
            r@ == self.modulus_view(),
    {
        &self.modulus
    }

    /// The public exponent in shortest big-endian form.
    pub fn exponent(&self) -> (r: &Vec<u8>)
        ensures
            r@ == self.exponent_view(),
    {
        &self.exponent
    }

    /// The modulus length in bytes.
    pub fn size(&self) -> (r: usize)
        ensures
            r == self.size_spec(),
    {
        self.modulus.len()
    }

    /// Relies on `RsaPublicKey::encrypt` with `Oaep::new::<Sha256>()`, drawing
    /// the seed from `rng`: it fails exactly when the message is longer than the
    /// modulus length less `2 * 32 + 2`, and otherwise returns `m^e mod n` for
    /// the padded block `m`, left-padded to the modulus length. `StdRng` never
    /// fails to fill. The modulus here is that of the parsed key, since
    /// `from_pem` took `modulus` from it.
    #[verifier::external_body]
    pub(crate) fn oaep_encrypt(&self, rng: &mut rand::rngs::StdRng, msg: &[u8]) -> (r: Result<Vec<u8>, rsa::Error>)
        requires
            self.wf(),
        ensures
            r is Ok <==> msg@.len() + OAEP_OVERHEAD <= self.size_spec(),
            r is Ok ==> r->Ok_0@.len() == self.size_spec(),
            r is Ok ==> be_value(r->Ok_0@) < self.n(),
    {
        self.inner.encrypt(rng, rsa::Oaep::new::<sha2::Sha256>(), msg)
    }
}

} // verus!
