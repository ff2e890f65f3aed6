//! The time at which a course is posted.

use chrono::NaiveDateTime;
use chrono::Utc;
use vstd::prelude::*;

verus! {

/// The current date and time in UTC, read from the system clock by
/// `chrono::Utc::now` and stripped of its zone by `DateTime::naive_utc`.
///
/// Nothing is claimed of the value: it is whatever the clock shows. The
/// call does not return where the clock is set before 1970.
#[verifier::external_body]
pub(crate) fn now() -> (time: NaiveDateTime) {
    Utc::now().naive_utc()
}

} // verus!
