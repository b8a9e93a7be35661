//! Watching a Clash configuration file for changes.

pub mod clash_watcher;
