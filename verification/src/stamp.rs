//! Fresh identifiers and wall-clock timestamps for new entries.
//!
//! Both values come from outside the process's control — a random source and
//! the system clock — so nothing is promised of them; every function that
//! stores them is verified for whatever value came back.

use vstd::prelude::*;

verus! {

/// Relies on `uuid::Uuid::new_v4` (a random version-4 UUID) and
/// `uuid::Uuid::as_u128` (its 128-bit value). The result is random, so
/// nothing is promised of it.
#[verifier::external_body]
pub(crate) fn fresh_id() -> u128 {
    uuid::Uuid::new_v4().as_u128()
}

/// Relies on `chrono::Utc::now` and `chrono::DateTime::timestamp_micros`:
/// the current wall-clock time in microseconds since the Unix epoch. The
/// result depends on the system clock, so nothing is promised of it.
#[verifier::external_body]
pub(crate) fn now_micros() -> i64 {
    chrono::Utc::now().timestamp_micros()
}

} // verus!
