//! Percent-encoding of path segments, as the `application/x-www-form-urlencoded`
//! byte serializer does it: used for tag names that are inserted into URL
//! paths.

use vstd::prelude::*;

verus! {

use crate::strutil::hex_digit;
use vstd::string::StringSliceAdditionalSpecFns;

/// The bytes that the form-urlencoded serializer keeps unchanged:
/// ASCII alphanumerics and `*`, `-`, `.`, `_`.
pub open spec fn urlencode_keeps(b: u8) -> bool {
    ||| 0x30 <= b <= 0x39  // '0' ..= '9'
    ||| 0x41 <= b <= 0x5A  // 'A' ..= 'Z'
    ||| 0x61 <= b <= 0x7A  // 'a' ..= 'z'
    ||| b == 0x2A  // '*'
    ||| b == 0x2D  // '-'
    ||| b == 0x2E  // '.'
    ||| b == 0x5F  // '_'
}

/// How one byte is serialized: kept, turned into `+` for a space, or
/// percent-escaped with two uppercase hexadecimal digits.
pub open spec fn urlencoded_byte(b: u8) -> Seq<char> {
    if urlencode_keeps(b) {
        seq![b as char]
    } else if b == 0x20 {
        seq!['+']
    } else {
        seq!['%', hex_digit((b / 16) as nat), hex_digit((b % 16) as nat)]
    }
}

/// The form-urlencoded serialization of a byte sequence.
pub open spec fn urlencoded(bytes: Seq<u8>) -> Seq<char>
    decreases bytes.len(),
{
    if bytes.len() == 0 {
        Seq::empty()
    } else {
        urlencoded_byte(bytes[0]) + urlencoded(bytes.drop_first())
    }
}

/// Relies on `url::form_urlencoded::byte_serialize`: ASCII alphanumerics and
/// `*-._` are kept, a space becomes `+`, and every other byte becomes `%`
/// followed by two uppercase hexadecimal digits.
#[verifier::external_body]
pub fn urlencode(s: &str) -> (r: String)
    ensures
        r@ == urlencoded(s.spec_bytes()),
{
    url::form_urlencoded::byte_serialize(s.as_bytes()).collect()
}

} // verus!
