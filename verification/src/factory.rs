//! Factories for specific sets of protocols.

pub mod compat;
pub mod latest;
