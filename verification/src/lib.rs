//! A small authoritative registry of reservable parking slots.
//!
//! The registry tracks an ordered, append-only collection of slots and an
//! ordered, append-only ledger of bookings against them. Slot creation is
//! restricted to the registry's controlling identity; booking is open to
//! anyone and triggers a payment transfer request for the computed fee.
//! Identity resolution, payment execution, logging and persistence belong to
//! the hosting environment: every operation here takes plain identity values
//! and returns the actions to perform.

pub mod laws;
pub mod registry;
pub mod types;
