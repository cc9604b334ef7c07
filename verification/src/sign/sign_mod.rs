use crate::keys::{
    ed25519_sign, ed25519_verify, keypair_bytes_valid, keypair_from_bytes, keypair_sign,
    keypair_verify,
};
use vstd::prelude::*;
use vstd::utf8::encode_utf8;

verus! {

/// Length of a Discord signature field.
pub const SIGNATURE_DISCORD: usize = 128;

/// What `verify` answers: the keypair signs the text `sign`, and that signature is
/// then checked against `message` with the keypair's public half.
pub open spec fn self_signature_verifies(key: Seq<char>, sign: Seq<char>, message: Seq<char>) -> bool {
    let pair = encode_utf8(key);
    ed25519_verify(pair.subrange(32, 64), encode_utf8(message), ed25519_sign(pair, encode_utf8(sign)))
}

/// Signs `sign` with the keypair whose 64-byte encoding is the text of `key`, and
/// checks that signature against `message`. A key that is not a keypair encoding
/// is refused by `requires` (the keypair must decode).
pub fn verify(key: String, sign: String, message: String) -> (r: bool)
    requires
        keypair_bytes_valid(encode_utf8(key@)),
    ensures
        r == self_signature_verifies(key@, sign@, message@),
{
    let publickey = match keypair_from_bytes(key.as_str().as_bytes()) {
        Ok(k) => k,
        Err(_) => {
            proof {
                assert(false);
            }
            return false;
        },
    };
    let signature = keypair_sign(&publickey, sign.as_str().as_bytes());
    keypair_verify(&publickey, message.as_str().as_bytes(), &signature)
}

/// `verify` on any key text: `None` where the key text is not a keypair encoding
/// (where `verify` would not return), else what `verify` answers.
pub fn verify_checked(key: String, sign: String, message: String) -> (r: Option<bool>)
    ensures
        r is None <==> !keypair_bytes_valid(encode_utf8(key@)),
        r matches Some(b) ==> b == self_signature_verifies(key@, sign@, message@),
{
    match keypair_from_bytes(key.as_str().as_bytes()) {
        Ok(_) => Some(verify(key, sign, message)),
        Err(_) => None,
    }
}

} // verus!
