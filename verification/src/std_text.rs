//! Contracts for functions of the standard library that the verifier's own
//! library leaves without one: believed, not proved.

use vstd::prelude::*;
use vstd::utf8::*;

verus! {

/// The error of `String::from_utf8`.
#[verifier::external_type_specification]
#[verifier::external_body]
pub struct ExFromUtf8Error(std::string::FromUtf8Error);

/// `String::from_utf8`.
/// Claimed: it succeeds exactly on well-formed UTF-8, and the string then
/// holds the characters that the bytes encode.
pub assume_specification[ String::from_utf8 ](bytes: Vec<u8>) -> (res: Result<
    String,
    std::string::FromUtf8Error,
>)
    ensures
        res is Ok <==> valid_utf8(bytes@),
        res is Ok ==> res->Ok_0@ == decode_utf8(bytes@),
;

/// The text that a lossy reading of bytes as UTF-8 gives: the characters
/// that well-formed parts encode, with a replacement character for each part
/// that is not well formed.
pub uninterp spec fn lossy_decoded(bytes: Seq<u8>) -> Seq<char>;

/// `String::from_utf8_lossy`, the text copied.
/// Claimed: the text is what `lossy_decoded` names, and for well-formed
/// UTF-8 that is the characters that the bytes encode.
#[verifier::external_body]
pub(crate) fn lossy_text(bytes: &[u8]) -> (text: String)
    ensures
        text@ == lossy_decoded(bytes@),
        valid_utf8(bytes@) ==> text@ == decode_utf8(bytes@),
{
    String::from_utf8_lossy(bytes).into_owned()
}

/// `Path::file_name`, as text.
/// Nothing is claimed of the name: where a path's last component begins
/// depends on the platform. No disk is touched.
#[verifier::external_body]
pub(crate) fn file_name_of(path: &str) -> (name: Option<String>) {
    std::path::Path::new(path).file_name().and_then(|n| n.to_str()).map(|s| s.to_string())
}

} // verus!
