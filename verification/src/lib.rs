//! Total size of the immediate, non-hidden entries of a directory, scaled by
//! a unit.
//!
//! The crate holds the logic of a small disk-usage tool: resolving an optional
//! unit token (`byte`, `kilo`, `mega`, `giga`, case-insensitively) to a scale
//! factor, and summing the sizes of the visible entries of a directory
//! listing, divided by that factor with truncation. Reading the directory
//! itself is left to the caller, which hands the listing over as plain
//! name/size pairs.

pub mod dirsum;
pub mod unit;
