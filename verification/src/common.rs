//! Definitions shared by master and device.

pub mod annex_b;
