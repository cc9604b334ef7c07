use ed25519_dalek::{Keypair, PublicKey, SecretKey, Signer};
use httpinteraction::cryptography::decode::{convert_data_for_byte, decode_data};
use httpinteraction::cryptography::encode::{self, encode_data, sign_and_encode, KeyError};
use httpinteraction::keys::SigningKeypair;
use httpinteraction::sign::sign_mod::{verify, verify_checked, SIGNATURE_DISCORD};
use httpinteraction::sign_mod::{verify_any_key, verify_authorization};

fn fixed_keypair() -> Keypair {
    let secret = SecretKey::from_bytes(&[7u8; 32]).unwrap();
    let public: PublicKey = (&secret).into();
    Keypair { secret, public }
}

#[test]
fn verify_authorization_accepts_a_discord_signature() {
    let pair = fixed_keypair();
    let message = "1700000000{\"type\":1}";
    let signature = pair.sign(message.as_bytes());
    let key_hex = hex::encode(pair.public.as_bytes());
    let sig_hex = hex::encode(signature.to_bytes());
    assert_eq!(sig_hex.len(), SIGNATURE_DISCORD);
    assert!(verify_authorization(key_hex.clone(), sig_hex.clone(), message.to_string()));
    // Upper-case hexadecimal is accepted as well.
    assert!(verify_authorization(key_hex.to_uppercase(), sig_hex.to_uppercase(), message.to_string()));
}

#[test]
fn verify_authorization_refuses_a_changed_message() {
    let pair = fixed_keypair();
    let signature = pair.sign(b"1700000000{\"type\":1}");
    let key_hex = hex::encode(pair.public.as_bytes());
    let sig_hex = hex::encode(signature.to_bytes());
    assert!(!verify_authorization(key_hex, sig_hex, "1700000001{\"type\":1}".to_string()));
}

#[test]
fn verify_authorization_refuses_malformed_headers() {
    let pair = fixed_keypair();
    let message = "ts{}";
    let signature = pair.sign(message.as_bytes());
    let key_hex = hex::encode(pair.public.as_bytes());
    let sig_hex = hex::encode(signature.to_bytes());
    // Not hexadecimal.
    assert!(!verify_authorization("zz".repeat(32), sig_hex.clone(), message.to_string()));
    assert!(!verify_authorization(key_hex.clone(), "g".repeat(128), message.to_string()));
    // Odd number of digits.
    assert!(!verify_authorization(key_hex.clone(), sig_hex[..127].to_string(), message.to_string()));
    // Wrong lengths.
    assert!(!verify_authorization(key_hex[..62].to_string(), sig_hex.clone(), message.to_string()));
    assert!(!verify_authorization(key_hex.clone(), sig_hex[..126].to_string(), message.to_string()));
    // Top bits of the last signature byte set.
    let mut bytes = signature.to_bytes();
    bytes[63] |= 0xE0;
    assert!(!verify_authorization(key_hex, hex::encode(bytes), message.to_string()));
}

#[test]
fn verify_checked_refuses_text_that_is_no_keypair() {
    assert_eq!(verify_checked("short".to_string(), "a".to_string(), "b".to_string()), None);
}

#[test]
fn verify_with_a_mismatched_keypair_is_false() {
    // A 64-byte text: an ASCII secret half and an ASCII public half that is a curve point.
    let secret = "a".repeat(32);
    let mut public = None;
    for c in b'A'..=b'z' {
        let candidate = String::from_utf8(vec![c; 32]).unwrap();
        if PublicKey::from_bytes(candidate.as_bytes()).is_ok() {
            public = Some(candidate);
            break;
        }
    }
    let key = format!("{}{}", secret, public.expect("some ASCII point"));
    assert_eq!(verify_checked(key.clone(), "hello".to_string(), "hello".to_string()), Some(false));
    assert!(!verify(key, "hello".to_string(), "other".to_string()));
}

#[test]
fn convert_data_for_byte_skips_whitespace() {
    assert_eq!(convert_data_for_byte("de ad\nbe\tef\r"), vec![0xde, 0xad, 0xbe, 0xef]);
    assert_eq!(convert_data_for_byte("0A0b"), vec![0x0a, 0x0b]);
    assert_eq!(encode::convert_data_for_byte(""), Vec::<u8>::new());
}

#[test]
fn decode_data_does_nothing() {
    decode_data();
}

#[test]
fn sign_and_encode_is_base64_of_upper_hex() {
    let pair = fixed_keypair();
    let expected = base64::encode(pair.sign(b"hello").to_string());
    let bytes = pair.to_bytes();
    let signing = SigningKeypair::from_key_bytes(&bytes).unwrap();
    assert_eq!(sign_and_encode(&signing, "hello"), expected);
    // 64 bytes are 128 hexadecimal digits, which are 172 base64 characters.
    assert_eq!(expected.len(), 172);
    let decoded = base64::decode(&expected).unwrap();
    assert!(decoded.iter().all(|b| b.is_ascii_hexdigit() && !b.is_ascii_lowercase()));
}

#[test]
fn encode_data_reads_the_secret_key() {
    let (signature, _sha, key) = encode_data("k".repeat(32), "message".to_string());
    assert_eq!(signature.len(), 172);
    assert!(key.is_ok());
    let (_, _, key) = encode_data("short".to_string(), "message".to_string());
    assert_eq!(key.err(), Some(KeyError::WrongLength));
}

#[test]
fn verify_any_key_tries_each_listed_key() {
    let pair = fixed_keypair();
    let other = SecretKey::from_bytes(&[9u8; 32]).unwrap();
    let other_public: PublicKey = (&other).into();
    let message = "1700000000{\"type\":1}";
    let sig_hex = hex::encode(pair.sign(message.as_bytes()).to_bytes());
    let key_hex = hex::encode(pair.public.as_bytes());
    let other_hex = hex::encode(other_public.as_bytes());
    assert!(verify_any_key(&format!("{} {}", other_hex, key_hex), &sig_hex, message));
    assert!(verify_any_key(&format!("{} {}", key_hex, other_hex), &sig_hex, message));
    assert!(!verify_any_key(&other_hex, &sig_hex, message));
    assert!(!verify_any_key("", &sig_hex, message));
    assert!(!verify_any_key(&format!("{} {}", key_hex, other_hex), &sig_hex, "1700000001{}"));
    // The whole list is not one key.
    assert!(!verify_authorization(format!("{} {}", other_hex, key_hex), sig_hex, message.to_string()));
}
