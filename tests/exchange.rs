use base64::Engine;
use rsa::pkcs8::{DecodePrivateKey, EncodePrivateKey, EncodePublicKey, LineEnding};
use rsa::traits::{PrivateKeyParts, PublicKeyParts};
use rsa::{BigUint, Oaep, RsaPrivateKey};
use rsa_exchange::decoder::{
    decode, decode_strict, decrypt_with_public_key, open_message, open_message_strict,
};
use rand::rngs::StdRng;
use rand::SeedableRng;
use rsa_exchange::encoder::{capacity, encode, encrypt_with_public_key, fits};
use rsa_exchange::error::CryptoError;
use rsa_exchange::key::PublicKey;
use rsa_exchange::padding::{find_separator, strip_padding, strip_padding_strict};

/// A private key whose primes are `3 * 2^(b-2) + a` and `7 * 2^(b-3) + c`,
/// with `b` half the modulus size; `a` and `c` are the smallest offsets that
/// give primes.
fn private_key(bits: usize) -> RsaPrivateKey {
    let half = bits / 2;
    let (a, c) = if bits == 2048 { (1037u32, 309u32) } else { (439u32, 263u32) };
    let p = (BigUint::from(3u32) << (half - 2)) + BigUint::from(a);
    let q = (BigUint::from(7u32) << (half - 3)) + BigUint::from(c);
    RsaPrivateKey::from_p_q(p, q, BigUint::from(65537u32)).unwrap()
}

fn public_pem(bits: usize) -> String {
    private_key(bits).to_public_key().to_public_key_pem(LineEnding::LF).unwrap()
}

fn private_pem(bits: usize) -> String {
    private_key(bits).to_pkcs8_pem(LineEnding::LF).unwrap().as_str().to_string()
}

fn b64(bytes: &[u8]) -> String {
    base64::engine::general_purpose::STANDARD.encode(bytes)
}

fn b64_bytes(text: &str) -> Vec<u8> {
    base64::engine::general_purpose::STANDARD.decode(text).unwrap()
}

/// What the private-key holder sends back: `00 01 FF.. 00 p` raised to `d`.
fn raw_reply(private_pem: &str, payload: &[u8]) -> String {
    let private = RsaPrivateKey::from_pkcs8_pem(private_pem).unwrap();
    let k = private.size();
    let mut block = vec![0u8, 1u8];
    block.extend(std::iter::repeat(0xFFu8).take(k - 3 - payload.len()));
    block.push(0);
    block.extend_from_slice(payload);
    assert_eq!(block.len(), k);
    let c = BigUint::from_bytes_be(&block).modpow(private.d(), private.n());
    b64(&c.to_bytes_be())
}

fn oaep_open(private_pem: &str, ciphertext_b64: &str) -> Vec<u8> {
    let private = RsaPrivateKey::from_pkcs8_pem(private_pem).unwrap();
    private.decrypt(Oaep::new::<sha2::Sha256>(), &b64_bytes(ciphertext_b64)).unwrap()
}

fn modulus_seed(public_pem: &str) -> u64 {
    public_pem.len() as u64
}

fn check_oaep_round_trip(public_pem: &str, private_pem: &str) {
    let mut rng = StdRng::seed_from_u64(modulus_seed(public_pem));
    let key = PublicKey::from_pem(public_pem).unwrap();
    for text in ["", "Alice", "gr\u{fc}\u{df} dich \u{1f510}"] {
        let sealed = encode(text, &key, &mut rng).unwrap();
        assert_eq!(b64_bytes(&sealed).len(), key.size());
        assert_eq!(oaep_open(private_pem, &sealed), text.as_bytes().to_vec());
    }
    let longest = "x".repeat(capacity(&key));
    let sealed = encode(&longest, &key, &mut rng).unwrap();
    assert_eq!(oaep_open(private_pem, &sealed), longest.as_bytes().to_vec());
}

fn check_raw_round_trip(public_pem: &str, private_pem: &str) {
    let key = PublicKey::from_pem(public_pem).unwrap();
    for text in ["", "Hello, Alice!", "Gr\u{fc}\u{df}e \u{1f510}"] {
        let reply = raw_reply(private_pem, text.as_bytes());
        assert_eq!(decode(&reply, &key), Ok(text.to_string()));
    }
    let longest = vec![b'z'; key.size() - 11];
    let reply = raw_reply(private_pem, &longest);
    assert_eq!(decode(&reply, &key), Ok(String::from_utf8(longest).unwrap()));
}

fn check_length_bound(public_pem: &str, modulus_bytes: usize) {
    let mut rng = StdRng::seed_from_u64(modulus_seed(public_pem));
    let key = PublicKey::from_pem(public_pem).unwrap();
    assert_eq!(key.size(), modulus_bytes);
    assert_eq!(capacity(&key), modulus_bytes - 2 * 32 - 2);
    let over = "a".repeat(modulus_bytes - 2 * 32 - 1);
    assert_eq!(encode(&over, &key, &mut rng), Err(CryptoError::PlaintextTooLong));
    let fits_text = "a".repeat(modulus_bytes - 2 * 32 - 2);
    assert!(fits(&fits_text, &key));
    assert!(!fits(&over, &key));
    let sealed = encode(&fits_text, &key, &mut rng).unwrap();
    assert_eq!(sealed.len(), 4 * ((modulus_bytes + 2) / 3));
    assert_eq!(encrypt_with_public_key(&over, public_pem), Err(CryptoError::PlaintextTooLong));
    let sealed = encrypt_with_public_key(&fits_text, public_pem).unwrap();
    assert_eq!(b64_bytes(&sealed).len(), modulus_bytes);
}

fn check_encryptions_differ(public_pem: &str) {
    let mut rng = StdRng::seed_from_u64(modulus_seed(public_pem));
    let key = PublicKey::from_pem(public_pem).unwrap();
    let a = encode("same message", &key, &mut rng).unwrap();
    let b = encode("same message", &key, &mut rng).unwrap();
    assert_ne!(a, b);
    let c = encrypt_with_public_key("same message", public_pem).unwrap();
    let d = encrypt_with_public_key("same message", public_pem).unwrap();
    assert_ne!(c, d);
}

fn check_malformed(public_pem: &str) {
    let key = PublicKey::from_pem(public_pem).unwrap();
    assert_eq!(decode("not-base64!!", &key), Err(CryptoError::Base64Error));
    assert_eq!(decrypt_with_public_key("not-base64!!", public_pem), Err(CryptoError::Base64Error));
    assert_eq!(decrypt_with_public_key("AAAA", "garbage"), Err(CryptoError::KeyParseError));
}

#[test]
fn oaep_round_trip_2048() {
    check_oaep_round_trip(&public_pem(2048), &private_pem(2048));
}

#[test]
fn oaep_round_trip_4096() {
    check_oaep_round_trip(&public_pem(4096), &private_pem(4096));
}

#[test]
fn raw_round_trip_2048() {
    check_raw_round_trip(&public_pem(2048), &private_pem(2048));
}

#[test]
fn raw_round_trip_4096() {
    check_raw_round_trip(&public_pem(4096), &private_pem(4096));
}

#[test]
fn encryptions_differ_2048() {
    check_encryptions_differ(&public_pem(2048));
}

#[test]
fn encryptions_differ_4096() {
    check_encryptions_differ(&public_pem(4096));
}

#[test]
fn length_bound_2048() {
    check_length_bound(&public_pem(2048), 256);
}

#[test]
fn length_bound_4096() {
    check_length_bound(&public_pem(4096), 512);
}

#[test]
fn malformed_input_2048() {
    check_malformed(&public_pem(2048));
}

#[test]
fn malformed_input_4096() {
    check_malformed(&public_pem(4096));
}

#[test]
fn garbage_pem_is_rejected() {
    assert!(matches!(PublicKey::from_pem("garbage"), Err(CryptoError::KeyParseError)));
    assert_eq!(encrypt_with_public_key("Alice", "garbage"), Err(CryptoError::KeyParseError));
    assert_eq!(decrypt_with_public_key("not-base64!!", "garbage"), Err(CryptoError::KeyParseError));
}

#[test]
fn private_pem_is_not_a_public_key() {
    assert!(matches!(PublicKey::from_pem(&private_pem(2048)), Err(CryptoError::KeyParseError)));
}

#[test]
fn key_components() {
    let key = PublicKey::from_pem(&public_pem(2048)).unwrap();
    assert_eq!(key.exponent(), &vec![1u8, 0, 1]);
    let private = RsaPrivateKey::from_pkcs8_pem(&private_pem(2048)).unwrap();
    assert_eq!(key.modulus(), &private.n().to_bytes_be());
    assert_eq!(key.modulus().len(), 256);
    let key = PublicKey::from_pem(&public_pem(4096)).unwrap();
    assert_eq!(key.size(), 512);
}

#[test]
fn short_recovered_value_is_invalid_padding() {
    let ten = vec![0x01u8, 0xFF, 0xFF, 0xFF, 0xFF, 0xFF, 0xFF, 0x00, b'h', b'i'];
    assert_eq!(strip_padding(&ten), Err(CryptoError::InvalidPadding));
    assert_eq!(open_message(&ten), Err(CryptoError::InvalidPadding));
    assert_eq!(strip_padding(&vec![]), Err(CryptoError::InvalidPadding));
    assert_eq!(strip_padding(&vec![0u8]), Err(CryptoError::InvalidPadding));
}

#[test]
fn no_separator_is_invalid_padding() {
    let mut twenty = vec![0x00u8, 0x00];
    twenty.extend(std::iter::repeat(0xFFu8).take(18));
    assert_eq!(twenty.len(), 20);
    assert_eq!(find_separator(&twenty), None);
    assert_eq!(strip_padding(&twenty), Err(CryptoError::InvalidPadding));
    assert_eq!(open_message(&twenty), Err(CryptoError::InvalidPadding));
}

#[test]
fn recovered_one_is_invalid_padding() {
    // 1^e mod n is 1, whose byte form is the single byte 01.
    for pem in [public_pem(2048), public_pem(4096)] {
        let key = PublicKey::from_pem(&pem).unwrap();
        assert_eq!(decode(&b64(&[1u8]), &key), Err(CryptoError::InvalidPadding));
        assert_eq!(decode(&b64(&[]), &key), Err(CryptoError::InvalidPadding));
    }
}

#[test]
fn separator_is_first_zero_from_index_two() {
    let m = vec![0x00u8, 0x00, 0x07, 0x00, b'a', 0x00, b'b', 0x01, 0x02, 0x03, 0x04, 0x05];
    assert_eq!(find_separator(&m), Some(3));
    assert_eq!(strip_padding(&m), Ok(vec![b'a', 0x00, b'b', 0x01, 0x02, 0x03, 0x04, 0x05]));
}

#[test]
fn lenient_padding_is_accepted() {
    // Neither the type byte nor the fill bytes are checked.
    let m = vec![0x07u8, 0x33, 0x44, 0x55, 0x66, 0x77, 0x88, 0x99, 0xAA, 0xBB, 0x00, b'o', b'k'];
    assert_eq!(open_message(&m), Ok("ok".to_string()));
}

#[test]
fn separator_at_the_end_gives_empty_payload() {
    let mut m = vec![0x01u8];
    m.extend(std::iter::repeat(0xFFu8).take(10));
    m.push(0x00);
    assert_eq!(strip_padding(&m), Ok(vec![]));
    assert_eq!(open_message(&m), Ok(String::new()));
}

#[test]
fn invalid_utf8_payload_is_utf8_error() {
    let mut m = vec![0x01u8];
    m.extend(std::iter::repeat(0xFFu8).take(10));
    m.push(0x00);
    m.extend_from_slice(&[0xC3, 0x28]);
    assert_eq!(open_message(&m), Err(CryptoError::Utf8Error));
    let key = PublicKey::from_pem(&public_pem(2048)).unwrap();
    let reply = raw_reply(&private_pem(2048), &[0xFF, 0xFE, 0xFD]);
    assert_eq!(decode(&reply, &key), Err(CryptoError::Utf8Error));
}

#[test]
fn full_exchange_through_pem_text() {
    let sealed = encrypt_with_public_key("Bob", &public_pem(2048)).unwrap();
    assert_ne!(sealed, "Bob");
    assert_eq!(b64_bytes(&sealed).len(), 256);
    assert_eq!(oaep_open(&private_pem(2048), &sealed), b"Bob".to_vec());
    let reply = raw_reply(&private_pem(2048), b"Hello, Bob!");
    assert_eq!(decrypt_with_public_key(&reply, &public_pem(2048)), Ok("Hello, Bob!".to_string()));
}

#[test]
fn error_messages() {
    assert_eq!(CryptoError::InvalidPadding.message(), "decryption failed: invalid padding");
    assert_eq!(CryptoError::Base64Error.message(), "failed to decode base64");
    assert_eq!(CryptoError::KeyParseError.message(), "failed to parse public key");
}

#[test]
fn strict_mode_round_trip() {
    for bits in [2048, 4096] {
        let key = PublicKey::from_pem(&public_pem(bits)).unwrap();
        let reply = raw_reply(&private_pem(bits), "Hello, Carol!".as_bytes());
        assert_eq!(decode_strict(&reply, &key), Ok("Hello, Carol!".to_string()));
        assert_eq!(decode_strict("not-base64!!", &key), Err(CryptoError::Base64Error));
    }
}

#[test]
fn strict_mode_checks_type_and_fill() {
    let m = vec![0x07u8, 0x33, 0x44, 0x55, 0x66, 0x77, 0x88, 0x99, 0xAA, 0xBB, 0x00, b'o', b'k'];
    assert_eq!(open_message_strict(&m), Err(CryptoError::InvalidPadding));
    let mut typed = vec![0x01u8, 0xFF, 0xFF, 0x12];
    typed.extend(std::iter::repeat(0xFFu8).take(8));
    typed.extend_from_slice(&[0x00, b'o', b'k']);
    assert_eq!(open_message(&typed), Ok("ok".to_string()));
    assert_eq!(open_message_strict(&typed), Err(CryptoError::InvalidPadding));
    let mut good = vec![0x01u8];
    good.extend(std::iter::repeat(0xFFu8).take(8));
    good.extend_from_slice(&[0x00, b'o', b'k']);
    assert_eq!(strip_padding_strict(&good), Ok(vec![b'o', b'k']));
    assert_eq!(open_message_strict(&good), Ok("ok".to_string()));
    let mut short_fill = vec![0x01u8];
    short_fill.extend(std::iter::repeat(0xFFu8).take(7));
    short_fill.extend_from_slice(&[0x00, b'o', b'k', b'!']);
    assert_eq!(short_fill.len(), 12);
    assert_eq!(strip_padding_strict(&short_fill), Err(CryptoError::InvalidPadding));
    assert_eq!(strip_padding(&short_fill), Ok(vec![b'o', b'k', b'!']));
    let mut no_separator = vec![0x01u8];
    no_separator.extend(std::iter::repeat(0xFFu8).take(19));
    assert_eq!(strip_padding_strict(&no_separator), Err(CryptoError::InvalidPadding));
}

#[test]
fn same_seed_gives_same_ciphertext() {
    let key = PublicKey::from_pem(&public_pem(2048)).unwrap();
    let mut first = StdRng::seed_from_u64(42);
    let mut second = StdRng::seed_from_u64(42);
    let a = encode("Dave", &key, &mut first).unwrap();
    let b = encode("Dave", &key, &mut second).unwrap();
    assert_eq!(a, b);
    assert_eq!(a.len(), 344);
    assert_eq!(oaep_open(&private_pem(2048), &a), b"Dave".to_vec());
}

#[test]
fn sealed_block_is_below_modulus() {
    let private = private_key(4096);
    let key = PublicKey::from_pem(&public_pem(4096)).unwrap();
    let mut rng = StdRng::seed_from_u64(3);
    let sealed = encode("Erin", &key, &mut rng).unwrap();
    assert_eq!(sealed.len(), 684);
    let c = BigUint::from_bytes_be(&b64_bytes(&sealed));
    assert!(&c < private.n());
}

#[test]
fn every_error_message() {
    assert_eq!(CryptoError::PlaintextTooLong.message(), "plaintext too long for key");
    assert_eq!(CryptoError::EncryptionError.message(), "encryption failed");
    assert_eq!(CryptoError::Utf8Error.message(), "payload is not valid UTF-8");
}
