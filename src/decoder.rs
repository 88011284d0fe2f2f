//! Opening replies: raw public-key exponentiation, then padding removal.

use vstd::prelude::*;
use vstd::arithmetic::power::pow;
use vstd::utf8::{decode_utf8, valid_utf8};
use crate::bytes::{be_bytes, be_value};
use crate::error::CryptoError;
use crate::key::{pem_accepted, pem_exponent, pem_modulus, PublicKey};
use crate::padding::{
    first_zero_from, MIN_PADDED_LEN, SEPARATOR_SEARCH_START,
    lemma_strict_agrees, lemma_type1_block_unpads, lemma_type1_block_unpads_strict, strict_unpad_spec,
    strip_padding, strip_padding_strict, type1_block, unpad_spec,
};
use crate::text::{base64_bytes, base64_decode, utf8_string};

verus! {

/// The character view of a text result.
pub open spec fn text_result(r: Result<String, CryptoError>) -> Result<Seq<char>, CryptoError> {
    match r {
        Ok(s) => Ok(s@),
        Err(e) => Err(e),
    }
}

/// The shortest big-endian form of `c^e mod n`, where `c` is read big-endian.
pub open spec fn recovered_spec(c: Seq<u8>, n: nat, e: nat) -> Seq<u8> {
    be_bytes((pow(be_value(c) as int, e) % (n as int)) as nat)
}

/// The text of a payload, or the error for a missing or non-UTF-8 one.
pub open spec fn payload_text(p: Option<Seq<u8>>) -> Result<Seq<char>, CryptoError> {
    match p {
        None => Err(CryptoError::InvalidPadding),
        Some(p) => if valid_utf8(p) {
            Ok(decode_utf8(p))
        } else {
            Err(CryptoError::Utf8Error)
        },
    }
}

/// The text carried by a recovered message.
pub open spec fn open_spec(m: Seq<u8>) -> Result<Seq<char>, CryptoError> {
    payload_text(unpad_spec(m))
}

/// The text carried by a recovered message under full type-1 validation.
pub open spec fn open_strict_spec(m: Seq<u8>) -> Result<Seq<char>, CryptoError> {
    payload_text(strict_unpad_spec(m))
}

/// The outcome of decoding base64 text `t` with the key `(n, e)`.
pub open spec fn decode_spec(t: Seq<char>, n: nat, e: nat) -> Result<Seq<char>, CryptoError> {
    match base64_bytes(t) {
        None => Err(CryptoError::Base64Error),
        Some(c) => open_spec(recovered_spec(c, n, e)),
    }
}

/// The outcome of decoding `t` with the key `(n, e)` under full type-1 validation.
pub open spec fn decode_strict_spec(t: Seq<char>, n: nat, e: nat) -> Result<Seq<char>, CryptoError> {
    match base64_bytes(t) {
        None => Err(CryptoError::Base64Error),
        Some(c) => open_strict_spec(recovered_spec(c, n, e)),
    }
}

/// A reply made by padding `p` into a type-1 block of `k` bytes and raising
/// it to the private exponent decodes to exactly `p`: whenever the base64 text
/// carries `c` and `c^e mod n` is that block, decoding with `(n, e)` yields
/// the text whose UTF-8 bytes are `p`, or `Utf8Error` when `p` is not UTF-8.
/// The payload leaves room for eight fill bytes, and the block has at least
/// twelve bytes. Full type-1 validation gives the same outcome.
pub proof fn lemma_raw_round_trip(t: Seq<char>, n: nat, e: nat, k: nat, p: Seq<u8>, c: Seq<u8>)
    requires
        p.len() + 11 <= k,
        k >= 12,
        base64_bytes(t) == Some(c),
        pow(be_value(c) as int, e) % (n as int) == be_value(type1_block(p, k)) as int,
    ensures
        decode_spec(t, n, e) == (if valid_utf8(p) {
            Ok::<Seq<char>, CryptoError>(decode_utf8(p))
        } else {
            Err(CryptoError::Utf8Error)
        }),
        decode_strict_spec(t, n, e) == decode_spec(t, n, e),
{
    lemma_type1_block_unpads(p, k);
    lemma_type1_block_unpads_strict(p, k);
}

/// A recovered message of ten bytes or fewer, or one with no zero byte from
/// index two on, is rejected as invalid padding.
pub proof fn lemma_padding_rejection(m: Seq<u8>)
    requires
        m.len() < MIN_PADDED_LEN || first_zero_from(m, SEPARATOR_SEARCH_START as int) >= m.len(),
    ensures
        open_spec(m) == Err::<Seq<char>, CryptoError>(CryptoError::InvalidPadding),
        open_strict_spec(m) == Err::<Seq<char>, CryptoError>(CryptoError::InvalidPadding),
{
    if strict_unpad_spec(m) is Some {
        lemma_strict_agrees(m);
    }
}

/// Where decoding under full type-1 validation succeeds, the lenient decoding
/// succeeds with the same text.
pub proof fn lemma_strict_decode_agrees(t: Seq<char>, n: nat, e: nat)
    requires
        decode_strict_spec(t, n, e) is Ok,
    ensures
        decode_spec(t, n, e) == decode_strict_spec(t, n, e),
{
    let c = base64_bytes(t)->Some_0;
    lemma_strict_agrees(recovered_spec(c, n, e));
}

/// Relies on `BigUint::from_bytes_be`, `BigUint::modpow` and
/// `BigUint::to_bytes_be`: `(base ^ exponent) % modulus` in shortest big-endian
/// form; `modpow` panics on a zero modulus, which is excluded.
#[verifier::external_body]
fn mod_pow(base: &Vec<u8>, exponent: &Vec<u8>, modulus: &Vec<u8>) -> (r: Vec<u8>)
    requires
        be_value(modulus@) > 0,
    ensures
        r@ == be_bytes((pow(be_value(base@) as int, be_value(exponent@)) % (be_value(modulus@) as int)) as nat),
{
    let b = rsa::BigUint::from_bytes_be(base);
    b.modpow(&rsa::BigUint::from_bytes_be(exponent), &rsa::BigUint::from_bytes_be(modulus)).to_bytes_be()
}

/// Removes the padding of a recovered message and reads its payload as UTF-8.
pub fn open_message(m: &Vec<u8>) -> (r: Result<String, CryptoError>)
    ensures
        text_result(r) == open_spec(m@),
{
    let payload = strip_padding(m)?;
    match utf8_string(payload) {
        Ok(s) => Ok(s),
        Err(_) => Err(CryptoError::Utf8Error),
    }
}

/// Like `open_message`, but also checks the type byte and the fill bytes.
pub fn open_message_strict(m: &Vec<u8>) -> (r: Result<String, CryptoError>)
    ensures
        text_result(r) == open_strict_spec(m@),
{
    let payload = strip_padding_strict(m)?;
    match utf8_string(payload) {
        Ok(s) => Ok(s),
        Err(_) => Err(CryptoError::Utf8Error),
    }
}

/// Like `decode`, but also checks the type byte and the fill bytes.
pub fn decode_strict(t: &str, key: &PublicKey) -> (r: Result<String, CryptoError>)
    requires
        key.wf(),
    ensures
        text_result(r) == decode_strict_spec(t@, key.n(), key.e()),
{
    let c = match base64_decode(t) {
        Ok(c) => c,
        Err(_) => {
            return Err(CryptoError::Base64Error);
        },
    };
    let m = mod_pow(&c, key.exponent(), key.modulus());
    open_message_strict(&m)
}

/// Recovers the text from a base64 reply made with the private exponent.
pub fn decode(t: &str, key: &PublicKey) -> (r: Result<String, CryptoError>)
    requires
        key.wf(),
    ensures
        text_result(r) == decode_spec(t@, key.n(), key.e()),
{
    let c = match base64_decode(t) {
        Ok(c) => c,
        Err(_) => {
            return Err(CryptoError::Base64Error);
        },
    };
    let m = mod_pow(&c, key.exponent(), key.modulus());
    open_message(&m)
}

/// Parses the key from PEM text, then recovers the text of a base64 reply.
pub fn decrypt_with_public_key(encrypted_base64: &str, public_key_pem: &str) -> (r: Result<
    String,
    CryptoError,
>)
    ensures
        !pem_accepted(public_key_pem@) ==> r == Err::<String, CryptoError>(CryptoError::KeyParseError),
        pem_accepted(public_key_pem@) ==> text_result(r) == decode_spec(
            encrypted_base64@,
            be_value(pem_modulus(public_key_pem@)),
            be_value(pem_exponent(public_key_pem@)),
        ),
{
    let key = PublicKey::from_pem(public_key_pem)?;
    decode(encrypted_base64, &key)
}

} // verus!
