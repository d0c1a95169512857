//! UTF-8 helpers shared by the identifier types.
use vstd::prelude::*;
use vstd::string::*;
use vstd::utf8::*;

verus! {

/// Number of bytes of the UTF-8 encoding of `s`.
pub open spec fn utf8_len(s: Seq<char>) -> nat {
    encode_utf8(s).len()
}

/// An identifier that is carried on the wire with a one-byte length prefix:
/// between 1 and 255 UTF-8 bytes.
pub open spec fn is_short_identifier(s: Seq<char>) -> bool {
    1 <= utf8_len(s) <= 255
}

/// The text that a byte string holds, if the bytes are valid UTF-8.
pub open spec fn spec_text_of(bytes: Seq<u8>) -> Option<Seq<char>> {
    if valid_utf8(bytes) {
        Some(decode_utf8(bytes))
    } else {
        None
    }
}

/// Calls `std::str::from_utf8`. Trusted: the standard library documents that it
/// succeeds exactly on valid UTF-8 input and that the string it returns holds the
/// same bytes.
#[verifier::external_body]
pub(crate) fn str_from_utf8(bytes: &[u8]) -> (r: Option<&str>)
    ensures
        r is Some <==> valid_utf8(bytes@),
        r matches Some(s) ==> s.spec_bytes() == bytes@,
{
    std::str::from_utf8(bytes).ok()
}

/// Decodes UTF-8 bytes into text.
pub(crate) fn text_of(bytes: &[u8]) -> (r: Option<&str>)
    ensures
        r is Some <==> spec_text_of(bytes@) is Some,
        r matches Some(s) ==> s@ == spec_text_of(bytes@)->Some_0 && s.spec_bytes() == bytes@,
{
    let r = str_from_utf8(bytes);
    proof {
        if let Some(s) = r {
            vstd::utf8::encode_utf8_decode_utf8(s@);
        }
    }
    r
}

/// The UTF-8 bytes of a string and the fact that re-decoding them gives the string back.
pub proof fn lemma_utf8_roundtrip(s: Seq<char>)
    ensures
        valid_utf8(encode_utf8(s)),
        decode_utf8(encode_utf8(s)) == s,
        spec_text_of(encode_utf8(s)) == Some(s),
{
    encode_utf8_valid_utf8(s);
    encode_utf8_decode_utf8(s);
}

} // verus!
