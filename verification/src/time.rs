//! The timestamp type of a bar.
//!
//! A bar is stamped with a `chrono::NaiveDateTime` read as UTC: the value
//! that `DateTime<Utc>::naive_utc` gives and `NaiveDateTime::and_utc` takes
//! back. The library never looks inside one. It stores the value, copies it
//! and hands it out again, so the type is declared opaque and nothing is
//! claimed about what it holds.

use vstd::prelude::*;

verus! {

/// `chrono::NaiveDateTime`, a calendar date and time of day without a zone.
/// Opaque to the verifier; no property of its contents is assumed.
#[verifier::external_type_specification]
#[verifier::external_body]
pub struct ExNaiveDateTime(chrono::NaiveDateTime);

} // verus!
