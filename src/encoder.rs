//! Sealing messages for the private-key holder with RSA-OAEP over SHA-256.

use vstd::prelude::*;
use vstd::string::StringSliceAdditionalSpecFns;
use crate::bytes::be_value;
use crate::error::CryptoError;
use crate::key::{pem_accepted, pem_modulus, PublicKey, OAEP_OVERHEAD};
use crate::random::os_seeded_rng;
use crate::text::{base64_encode, base64_text};

verus! {

/// Whether a plaintext of `len` bytes fits one OAEP block of a modulus of
/// `modulus_len` bytes.
pub open spec fn fits_spec(len: nat, modulus_len: nat) -> bool {
    len + OAEP_OVERHEAD <= modulus_len
}

/// Whether `s` is the base64 text of a ciphertext for the modulus `n`, whose
/// shortest big-endian form has `modulus_len` bytes.
pub open spec fn is_sealed_text(s: Seq<char>, n: nat, modulus_len: nat) -> bool {
    exists|c: Seq<u8>|
        c.len() == modulus_len && be_value(c) < n && s == #[trigger] base64_text(c)
}

/// The largest plaintext, in bytes, that `key` can seal; zero when the modulus
/// is too short for any.
pub fn capacity(key: &PublicKey) -> (r: usize)
    ensures
        key.size_spec() >= OAEP_OVERHEAD ==> r + OAEP_OVERHEAD == key.size_spec(),
        key.size_spec() < OAEP_OVERHEAD ==> r == 0,
{
    let k = key.size();
    if k < OAEP_OVERHEAD {
        0
    } else {
        k - OAEP_OVERHEAD
    }
}

/// Seals `plaintext` for the private-key holder and returns it as base64 text.
/// The OAEP seed is drawn from `rng`, which advances on every call.
pub fn encode(plaintext: &str, key: &PublicKey, rng: &mut rand::rngs::StdRng) -> (r: Result<
    String,
    CryptoError,
>)
    requires
        key.wf(),
    ensures
        r is Err <==> !fits_spec(plaintext.spec_bytes().len(), key.size_spec()),
        r is Err ==> r->Err_0 == CryptoError::PlaintextTooLong,
        r is Ok ==> is_sealed_text(r->Ok_0@, key.n(), key.size_spec()),
        r is Ok ==> r->Ok_0@.len() == 4 * ((key.size_spec() + 2) / 3),
{
    let data = plaintext.as_bytes();
    let k = key.size();
    if k < OAEP_OVERHEAD || data.len() > k - OAEP_OVERHEAD {
        return Err(CryptoError::PlaintextTooLong);
    }
    match key.oaep_encrypt(rng, data) {
        Ok(c) => {
            let s = base64_encode(c.as_slice());
            assert(c@.len() == key.size_spec() && be_value(c@) < key.n() && s@ == base64_text(c@));
            Ok(s)
        },
        Err(_) => Err(CryptoError::EncryptionError),
    }
}

/// Parses the key from PEM text, then seals `data` with it, seeding the OAEP
/// padding from the operating system's random source. A failing random source
/// gives `EncryptionError`.
pub fn encrypt_with_public_key(data: &str, public_key_pem: &str) -> (r: Result<String, CryptoError>)
    ensures
        !pem_accepted(public_key_pem@) <==> r == Err::<String, CryptoError>(
            CryptoError::KeyParseError,
        ),
        pem_accepted(public_key_pem@) ==> (r == Err::<String, CryptoError>(
            CryptoError::PlaintextTooLong,
        ) <==> !fits_spec(data.spec_bytes().len(), pem_modulus(public_key_pem@).len())),
        r is Err ==> r->Err_0 == CryptoError::KeyParseError || r->Err_0
            == CryptoError::PlaintextTooLong || r->Err_0 == CryptoError::EncryptionError,
        r is Ok ==> is_sealed_text(
            r->Ok_0@,
            be_value(pem_modulus(public_key_pem@)),
            pem_modulus(public_key_pem@).len(),
        ),
        r is Ok ==> r->Ok_0@.len() == 4 * ((pem_modulus(public_key_pem@).len() + 2) / 3),
{
    let key = PublicKey::from_pem(public_key_pem)?;
    if !fits(data, &key) {
        return Err(CryptoError::PlaintextTooLong);
    }
    let mut rng = match os_seeded_rng() {
        Ok(g) => g,
        Err(_) => {
            return Err(CryptoError::EncryptionError);
        },
    };
    encode(data, &key, &mut rng)
}

/// Whether `plaintext` fits one OAEP block of `key`.
pub fn fits(plaintext: &str, key: &PublicKey) -> (r: bool)
    ensures
        r == fits_spec(plaintext.spec_bytes().len(), key.size_spec()),
{
    let n = plaintext.as_bytes().len();
    let k = key.size();
    k >= OAEP_OVERHEAD && n <= k - OAEP_OVERHEAD
}

} // verus!
