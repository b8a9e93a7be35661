//! Clash configuration merging.

pub mod clash_merger;
