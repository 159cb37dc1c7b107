//! The wall clock: the standard library reads it, and the `chrono` crate
//! writes a reading out. The contracts in this file are believed, not proved.

use vstd::prelude::*;

verus! {

/// The time that many seconds and nanoseconds after the start of 1970,
/// written out as RFC 3339 asks, or `None` where `chrono` knows no such
/// time.
pub uninterp spec fn rfc3339_text(secs: int, nanos: int) -> Option<Seq<char>>;

/// `SystemTime::elapsed` on `UNIX_EPOCH`, as whole seconds and the
/// nanoseconds beside them.
/// Nothing is claimed of the reading: it depends on when the call is made.
/// It is `None` where the system's clock stands before 1970.
#[verifier::external_body]
pub(crate) fn since_epoch() -> (reading: Option<(u64, u32)>) {
    std::time::UNIX_EPOCH.elapsed().ok().map(|d| (d.as_secs(), d.subsec_nanos()))
}

/// `DateTime::from_timestamp`, written out by `to_rfc3339`.
/// Claimed: the text is what `rfc3339_text` names for the seconds and the
/// nanoseconds.
#[verifier::external_body]
pub(crate) fn rfc3339_at(secs: i64, nanos: u32) -> (stamp: Option<String>)
    ensures
        match stamp {
            Some(text) => rfc3339_text(secs as int, nanos as int) == Some(text@),
            None => rfc3339_text(secs as int, nanos as int) is None,
        },
{
    chrono::DateTime::from_timestamp(secs, nanos).map(|t| t.to_rfc3339())
}

} // verus!
