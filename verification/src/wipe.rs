//! Overwriting secrets in memory with the `zeroize` crate: the contracts in
//! this file are believed, not proved.

use vstd::prelude::*;
use zeroize::Zeroize;

verus! {

/// `Zeroize::zeroize` on a byte vector.
/// Claimed: the bytes are overwritten with zeros and the vector is left empty.
#[verifier::external_body]
pub(crate) fn wipe_bytes(bytes: &mut Vec<u8>)
    ensures
        final(bytes)@ == Seq::<u8>::empty(),
    opens_invariants none
    no_unwind
{
    bytes.zeroize();
}

/// `Zeroize::zeroize` on a string.
/// Claimed: the text is overwritten with zeros and the string is left empty.
#[verifier::external_body]
pub(crate) fn wipe_text(text: &mut String)
    ensures
        final(text)@ == Seq::<char>::empty(),
    opens_invariants none
    no_unwind
{
    text.zeroize();
}

/// `Zeroize::zeroize` on a key.
/// Claimed: every byte of the key is zero afterwards.
#[verifier::external_body]
pub(crate) fn wipe_key(key: &mut [u8; 32])
    ensures
        forall|i: int| 0 <= i < 32 ==> final(key)@[i] == 0u8,
    opens_invariants none
    no_unwind
{
    key.zeroize();
}

} // verus!
