//! Protocol-agnostic value mapping tables.
//!
//! Stateless bidirectional functions between the device's discrete codes
//! and generic numeric representations suitable for smart home platforms.

pub mod fan;
pub mod mode;
pub mod swing;
