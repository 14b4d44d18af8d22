//! Clock configuration and monotonic time measurement for the EFM32HG.

pub mod clocks;
pub mod peripheral;
pub mod time;
