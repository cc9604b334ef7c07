use crate::encoding::{copy_range, hex_decode, split_spaces};
use crate::keys::{
    ed25519_point_valid, ed25519_verify, public_key_from_bytes, public_key_verify,
    signature_bytes_valid, signature_from_bytes,
};
use hex::FromHexError;
use vstd::prelude::*;
use vstd::utf8::encode_utf8;

verus! {

#[verifier::external_type_specification]
#[verifier::external_body]
pub struct ExFromHexError(FromHexError);

/// `hex::decode`: strict hexadecimal decoding of the bytes.
#[verifier::external_body]
pub(crate) fn hex_decode_bytes(data: &[u8]) -> (r: Result<Vec<u8>, FromHexError>)
    ensures
        match r {
            Ok(v) => hex_decode(data@) == Some(v@),
            Err(_) => hex_decode(data@) is None,
        },
{
    hex::decode(data)
}

/// Whether `message` carries a valid Ed25519 signature under `key`: the key and
/// the signature are hexadecimal text, the key decodes to a curve point, the
/// signature is a well-formed encoding, and it verifies over the message.
pub open spec fn key_authorizes(key: Seq<u8>, sign: Seq<u8>, message: Seq<u8>) -> bool {
    match (hex_decode(key), hex_decode(sign)) {
        (Some(k), Some(signature)) => {
            &&& k.len() == 32
            &&& ed25519_point_valid(k)
            &&& signature_bytes_valid(signature)
            &&& ed25519_verify(k, message, signature)
        },
        _ => false,
    }
}

/// `key_authorizes` on the UTF-8 text of the key, signature and message.
pub open spec fn authorization_valid(pub_key: Seq<char>, sign: Seq<char>, message: Seq<char>) -> bool {
    key_authorizes(encode_utf8(pub_key), encode_utf8(sign), encode_utf8(message))
}

/// Whether the signature checks under one of the space-separated keys of
/// `pub_keys`.
pub open spec fn any_key_authorizes(pub_keys: Seq<char>, sign: Seq<char>, message: Seq<char>) -> bool {
    exists|i: int|
        0 <= i < split_spaces(encode_utf8(pub_keys)).len() && key_authorizes(
            #[trigger] split_spaces(encode_utf8(pub_keys))[i],
            encode_utf8(sign),
            encode_utf8(message),
        )
}

fn verify_key_bytes(key: &[u8], sign: &[u8], message: &[u8]) -> (r: bool)
    ensures
        r == key_authorizes(key@, sign@, message@),
{
    let public_key = match hex_decode_bytes(key) {
        Ok(v) => v,
        Err(_) => {
            return false;
        },
    };
    let hex_signature = match hex_decode_bytes(sign) {
        Ok(v) => v,
        Err(_) => {
            return false;
        },
    };
    let public_key = match public_key_from_bytes(public_key.as_slice()) {
        Ok(k) => k,
        Err(_) => {
            return false;
        },
    };
    let signature = match signature_from_bytes(hex_signature.as_slice()) {
        Ok(s) => s,
        Err(_) => {
            return false;
        },
    };
    public_key_verify(&public_key, message, &signature)
}

/// Checks the signature that Discord puts on each interaction request
/// (`X-Signature-Ed25519` over the timestamp followed by the body) under one key.
pub fn verify_authorization(pub_key: String, sign: String, message: String) -> (r: bool)
    ensures
        r == authorization_valid(pub_key@, sign@, message@),
{
    verify_key_bytes(pub_key.as_str().as_bytes(), sign.as_str().as_bytes(), message.as_str().as_bytes())
}

/// Checks the signature under each of the space-separated keys of `pub_keys`,
/// and accepts when one of them verifies.
pub fn verify_any_key(pub_keys: &str, sign: &str, message: &str) -> (r: bool)
    ensures
        r == any_key_authorizes(pub_keys@, sign@, message@),
{
    let text = pub_keys.as_bytes();
    let sign_bytes = sign.as_bytes();
    let message_bytes = message.as_bytes();
    let ghost sign_v = sign_bytes@;
    let ghost message_v = message_bytes@;
    let ghost mut done: Seq<Seq<u8>> = Seq::empty();
    let mut start: usize = 0;
    let mut found = false;
    let mut i: usize = 0;
    assert(text@.subrange(0, 0) =~= Seq::<u8>::empty());
    assert(split_spaces(Seq::<u8>::empty()) == seq![Seq::<u8>::empty()]);
    assert(done.push(text@.subrange(0, 0)) =~= seq![Seq::<u8>::empty()]);
    while i < text.len()
        invariant
            start <= i <= text@.len(),
            sign_v == sign_bytes@,
            message_v == message_bytes@,
            split_spaces(text@.subrange(0, i as int)) == done.push(text@.subrange(start as int, i as int)),
            found == exists|j: int| 0 <= j < done.len() && key_authorizes(#[trigger] done[j], sign_v, message_v),
        decreases text@.len() - i,
    {
        let ghost prefix = text@.subrange(0, i as int);
        let ghost piece = text@.subrange(start as int, i as int);
        assert(text@.subrange(0, i + 1).drop_last() == prefix);
        assert(text@.subrange(0, i + 1).last() == text@[i as int]);
        if text[i] == 32 {
            let key = copy_range(text, start, i);
            let ok = verify_key_bytes(key.as_slice(), sign_bytes, message_bytes);
            let ghost old_done = done;
            proof {
                done = done.push(piece);
                if ok {
                    assert(done[old_done.len() as int] == piece);
                }
                if found {
                    let j = choose|j: int| 0 <= j < old_done.len() && key_authorizes(#[trigger] old_done[j], sign_v, message_v);
                    assert(done[j] == old_done[j]);
                }
                assert forall|j: int| 0 <= j < done.len() && key_authorizes(#[trigger] done[j], sign_v, message_v)
                    implies found || ok by {
                    if j < old_done.len() {
                        assert(done[j] == old_done[j]);
                    }
                }
            }
            found = found || ok;
            start = i + 1;
            i = i + 1;
            assert(text@.subrange(start as int, i as int) =~= Seq::<u8>::empty());
            assert(split_spaces(text@.subrange(0, i as int)) =~= old_done.push(piece).push(Seq::<u8>::empty()));
        } else {
            i = i + 1;
            assert(text@.subrange(start as int, i as int) =~= piece.push(text@[i - 1]));
            assert(split_spaces(text@.subrange(0, i as int)) =~= done.push(piece.push(text@[i - 1])));
        }
    }
    assert(text@.subrange(0, text@.len() as int) == text@);
    let key = copy_range(text, start, text.len());
    let ok = verify_key_bytes(key.as_slice(), sign_bytes, message_bytes);
    let ghost old_done = done;
    proof {
        let piece = text@.subrange(start as int, text@.len() as int);
        done = done.push(piece);
        let keys = split_spaces(encode_utf8(pub_keys@));
        assert(keys == done);
        if ok {
            assert(keys[old_done.len() as int] == piece);
        }
        if found {
            let j = choose|j: int| 0 <= j < old_done.len() && key_authorizes(#[trigger] old_done[j], sign_v, message_v);
            assert(keys[j] == old_done[j]);
        }
        assert forall|j: int| 0 <= j < keys.len() && key_authorizes(#[trigger] keys[j], sign_v, message_v)
            implies found || ok by {
            if j < old_done.len() {
                assert(keys[j] == old_done[j]);
            }
        }
    }
    found || ok
}

} // verus!
