//! Textual rendering of Unix timestamps, delegated to the `chrono` crate.

use vstd::prelude::*;

verus! {

/// The text `chrono` renders for a Unix timestamp interpreted in UTC, or
/// `None` where the timestamp lies outside the representable range. The
/// rendering depends on the number of seconds alone.
pub uninterp spec fn utc_text_of(secs: i64) -> Option<Seq<char>>;

/// Relies on chrono's `DateTime::<Utc>::from_timestamp` and the `Display`
/// rendering of the resulting value: `from_timestamp` returns `None`
/// exactly on an out-of-range number of seconds, and both it and the
/// rendered text are functions of the timestamp alone.
#[verifier::external_body]
pub(crate) fn utc_timestamp_text(secs: i64) -> (r: Option<String>)
    ensures
        match r {
            Some(t) => utc_text_of(secs) == Some(t@),
            None => utc_text_of(secs) is None,
        },
{
    chrono::DateTime::<chrono::Utc>::from_timestamp(secs, 0).map(|d| d.to_string())
}

} // verus!
