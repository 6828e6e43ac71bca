//! Campaign ledger for metering a pre-funded token pool out to recipients.
//!
//! An organizer registers a campaign with a declared cap. Distributions are
//! checked against that cap and authorized by an address derived from the
//! campaign's own identity, so no private key is ever involved. Every public
//! function carries a contract that Verus proves.

pub mod address;
pub mod authority;
pub mod campaign;
pub mod creation;
pub mod distribution;
pub mod lifecycle;
