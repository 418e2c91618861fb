//! Register-level driver logic for the AW9523B port expander and LED driver.
//!
//! The functions here decide which register an operation touches, which bits
//! it changes and what a value read back means. Moving the bytes over the bus
//! is left to the caller.

pub mod access;
pub mod driver;
pub mod error;
pub mod pins;
pub mod register;
