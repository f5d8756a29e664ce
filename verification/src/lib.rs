//! Core logic of a hotel-booking edge service: the create- and
//! cancel-reservation sagas that coordinate three backing stores, the
//! read aggregations that enrich reservations with payment details, and
//! the loyalty tier engine that reclassifies an account on every
//! mutation of its reservation counter.
//!
//! All network and database traffic stays outside this crate. The saga
//! modules expose one typed state per pending collaborator call and one
//! step function per collaborator reply, so a driver performs the calls
//! and feeds the results back; every decision in between is verified.

use vstd::prelude::*;

pub mod aggregate;
pub mod cancel;
pub mod create;
pub mod loyalty;
pub mod model;
pub mod pricing;

verus! {

/// Largest magnitude, in days from the calendar origin, that a [`model::Date`]
/// may carry. Generous enough for every date a calendar library can
/// produce, and small enough that a whole-stay cost fits in `i64`.
pub const DATE_DAY_LIMIT: i32 = 100_000_000;

} // verus!
