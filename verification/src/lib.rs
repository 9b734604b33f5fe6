//! The bookkeeping behind a small box office: users, shows and tickets kept
//! in keyed stores, who may create or delete a show, and when a ticket is
//! taken in, decided by whether its payment has gone through.
//!
//! Identifiers are the 128-bit values of UUIDs; times are seconds and
//! nanoseconds since the Unix epoch.

pub mod payments;
pub mod time;
pub mod ids;
pub mod user;
pub mod show;
pub mod ticket;
pub mod state;
pub mod laws;
