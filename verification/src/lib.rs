//! Escrow for scheduled consultations between a patient and a doctor.
//!
//! The crate holds three stores that a host drives one call at a time:
//! the consultation escrow itself, a registry of doctors and patients, and
//! an access list for medical records. Every operation takes the facts of
//! the call (who calls, what was paid, what the clock reads) as plain values
//! and either commits its whole effect or leaves the store as it was.

pub mod consultation;
pub mod escrow;
pub mod identity;
pub mod laws;
pub mod records_access;
pub mod records_types;
pub mod registry;
pub mod registry_types;
pub mod schedule;
pub mod settlement;
pub mod table;
pub mod timing;
pub mod transitions;
