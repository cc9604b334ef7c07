use crate::encoding::hex_decode_lenient;
use rustc_serialize::hex::{FromHex, FromHexError};
use vstd::prelude::*;
use vstd::utf8::encode_utf8;

verus! {

#[verifier::external_type_specification]
#[verifier::external_body]
pub struct ExLenientHexError(FromHexError);

/// `FromHex::from_hex` of `rustc_serialize` on a `str`: whitespace (space, tab,
/// carriage return, line feed) is skipped, any other byte must be a hexadecimal
/// digit, and the digits must pair up.
#[verifier::external_body]
pub(crate) fn from_hex_lenient(text: &str) -> (r: Result<Vec<u8>, FromHexError>)
    ensures
        match r {
            Ok(v) => hex_decode_lenient(encode_utf8(text@)) == Some(v@),
            Err(_) => hex_decode_lenient(encode_utf8(text@)) is None,
        },
{
    text.from_hex()
}

/// The bytes written in hexadecimal in `string_data`. Text that is not
/// hexadecimal is refused by `requires`.
pub fn convert_data_for_byte(string_data: &str) -> (r: Vec<u8>)
    requires
        hex_decode_lenient(encode_utf8(string_data@)) is Some,
    ensures
        Some(r@) == hex_decode_lenient(encode_utf8(string_data@)),
{
    match from_hex_lenient(string_data) {
        Ok(v) => v,
        Err(_) => {
            proof {
                assert(false);
            }
            Vec::new()
        },
    }
}

/// Placeholder for decoding payloads: it does nothing.
pub fn decode_data() {
}

} // verus!
