use vstd::prelude::*;

verus! {

/// The text that a byte sequence encodes as UTF-8, or `None` where it is not
/// valid UTF-8.
pub uninterp spec fn utf8_text(b: Seq<u8>) -> Option<Seq<char>>;

/// The text that a byte sequence gives when each invalid UTF-8 sequence in it
/// is replaced by U+FFFD.
pub uninterp spec fn lossy_text(b: Seq<u8>) -> Seq<char>;

#[verifier::external_type_specification]
#[verifier::external_body]
pub struct ExFromUtf8Error(std::string::FromUtf8Error);

/// Relies on `String::from_utf8`: it succeeds exactly on valid UTF-8, and
/// then holds the text that the bytes encode.
#[verifier::external_body]
pub(crate) fn decode_utf8(bytes: Vec<u8>) -> (r: Result<String, std::string::FromUtf8Error>)
    ensures
        r is Ok <==> utf8_text(bytes@) is Some,
        r matches Ok(s) ==> utf8_text(bytes@) == Some(s@),
{
    String::from_utf8(bytes)
}

/// Relies on `String::from_utf8_lossy`: valid UTF-8 comes back as the text
/// that it encodes, anything else with replacement characters.
#[verifier::external_body]
pub(crate) fn lossy_decode(bytes: &Vec<u8>) -> (r: String)
    ensures
        r@ == lossy_text(bytes@),
        utf8_text(bytes@) matches Some(t) ==> r@ == t,
{
    String::from_utf8_lossy(bytes).into_owned()
}

} // verus!
