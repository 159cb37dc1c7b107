//! Media types by file extension, through the `mime_guess` crate: nothing is
//! claimed of the guess.

use vstd::prelude::*;

verus! {

/// `mime_guess::from_path` and `first_or_octet_stream`, written out as text.
/// Nothing is claimed of the text: which part of a path is its extension
/// depends on the platform. No disk is touched.
#[verifier::external_body]
pub(crate) fn guess_mime(path: &str) -> (mime: String) {
    mime_guess::from_path(path).first_or_octet_stream().to_string()
}

} // verus!
