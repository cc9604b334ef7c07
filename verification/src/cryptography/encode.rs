use crate::cryptography::decode;
use crate::encoding::{base64_encode, hex_decode_lenient, to_upper_hex, upper_hex};
use crate::keys::{
    ed25519_sign, generate_keypair_bytes, keypair_bytes_valid, keypair_from_bytes, keypair_sign,
    secret_key_from_bytes, sha512_new, signature_to_bytes, SecretKeyValue, Sha512State, SigningKeypair,
};
use vstd::prelude::*;
use vstd::utf8::encode_utf8;

verus! {

/// Why a secret key was not accepted.
#[derive(Debug, PartialEq, Eq, Structural)]
pub enum KeyError {
    /// The key text is not 32 bytes long.
    WrongLength,
}

/// `base64::encode`: standard base64 with padding.
#[verifier::external_body]
fn base64_encode_bytes(data: &[u8]) -> (r: String)
    ensures
        r@ == base64_encode(data@),
{
    base64::encode(data)
}

/// The bytes written in hexadecimal in `string_data`. Text that is not
/// hexadecimal is refused by `requires`.
pub fn convert_data_for_byte(string_data: &str) -> (r: Vec<u8>)
    requires
        hex_decode_lenient(encode_utf8(string_data@)) is Some,
    ensures
        Some(r@) == hex_decode_lenient(encode_utf8(string_data@)),
{
    decode::convert_data_for_byte(string_data)
}

/// The signature of `message` by `pair`, written as uppercase hexadecimal text
/// and then base64-encoded.
pub fn sign_and_encode(pair: &SigningKeypair, message: &str) -> (r: String)
    ensures
        r@ == base64_encode(upper_hex(ed25519_sign(pair@, encode_utf8(message@)))),
{
    let signature = keypair_sign(pair, message.as_bytes());
    let bytes = signature_to_bytes(&signature);
    let text = to_upper_hex(bytes.as_slice());
    base64_encode_bytes(text.as_slice())
}

/// Signs `message` with a freshly generated keypair and returns the encoded
/// signature, a fresh SHA-512 hasher, and `key_secret` read as a secret key (a
/// text that is not 32 bytes long is refused with `KeyError::WrongLength`).
pub fn encode_data(key_secret: String, message: String) -> (r: (String, Sha512State, Result<SecretKeyValue, KeyError>))
    ensures
        exists|pair: Seq<u8>|
            keypair_bytes_valid(pair) && r.0@ == base64_encode(
                upper_hex(#[trigger] ed25519_sign(pair, encode_utf8(message@))),
            ),
        r.1@ == Seq::<u8>::empty(),
        r.2 is Ok <==> encode_utf8(key_secret@).len() == 32,
        r.2 matches Ok(k) ==> k@ == encode_utf8(key_secret@),
        r.2 matches Err(e) ==> e == KeyError::WrongLength,
{
    let pair_bytes = generate_keypair_bytes();
    let pair = match keypair_from_bytes(pair_bytes.as_slice()) {
        Ok(p) => p,
        Err(_) => {
            proof {
                assert(false);
            }
            return (String::new(), sha512_new(), Err(KeyError::WrongLength));
        },
    };
    let key = match secret_key_from_bytes(key_secret.as_str().as_bytes()) {
        Ok(k) => Ok(k),
        Err(_) => Err(KeyError::WrongLength),
    };
    let sha = sha512_new();
    let signature = sign_and_encode(&pair, message.as_str());
    (signature, sha, key)
}

} // verus!
