//! The fixed texts of the module, and the passage from bytes to text.

use vstd::prelude::*;
use vstd::utf8::*;

verus! {

/// The name under which the device node is registered with the host.
pub const DEVICE_NAME: &'static str = "rustmodule";

/// The message that a freshly loaded device holds.
pub const GREETING: &'static str = "Default hello message\n";

/// `String::from_utf8`, with the error reduced to `None`.
///
/// Trusted. It succeeds exactly on the byte vectors that are well-formed UTF-8, and
/// the string it then returns is made of the very bytes it was given.
#[verifier::external_body]
fn string_from_utf8(bytes: Vec<u8>) -> (text: Option<String>)
    ensures
        text is Some <==> valid_utf8(bytes@),
        text matches Some(s) ==> encode_utf8(s@) == bytes@,
{
    match String::from_utf8(bytes) {
        Ok(s) => Some(s),
        Err(_) => None,
    }
}

/// Reads `bytes` as UTF-8 text: `None` if they are not well-formed.
pub fn decode(bytes: Vec<u8>) -> (text: Option<String>)
    ensures
        text is Some <==> valid_utf8(bytes@),
        text matches Some(s) ==> s@ == decode_utf8(bytes@),
{
    let text = string_from_utf8(bytes);
    proof {
        if let Some(s) = &text {
            encode_utf8_decode_utf8(s@);
        }
    }
    text
}

} // verus!
