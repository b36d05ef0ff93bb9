//! The guarded output line.

pub mod gpio;
