//! Decoder for the "Proximity Pairing" advertisement that AirPods broadcast
//! over Bluetooth Low Energy.
//!
//! The crate turns the raw 27-byte manufacturer-data payload into a structured
//! record ([`airpods::AirPods`]), resolves the packed "current vs. other"
//! fields into concrete left/right status, and renders a diagnostic report
//! with the unidentified trailing bytes redacted.  Scanning for
//! advertisements and extracting the payload is the caller's concern: every
//! operation here is a pure function of the bytes it is given.

pub mod airpods;
pub mod battery;
pub mod model;
pub mod packet;
pub mod render;
pub mod side;
