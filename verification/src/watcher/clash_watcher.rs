//! The Clash configuration file watcher's data model: its debounce
//! configuration, the events it emits, and the watcher handle with its
//! existence check. The notify machinery and the debouncing task run on
//! the caller's side.

use vstd::prelude::*;

verus! {

/// Relies on `std::path::Path::exists`: whether the path named an existing
/// file-system entity at the moment of the call. The answer depends on the
/// disk, so nothing is assumed of it.
#[verifier::external_body]
fn path_exists(p: &str) -> bool {
    std::path::Path::new(p).exists()
}

/// How the watcher behaves.
#[derive(Debug, Clone)]
pub struct WatcherConfig {
    /// Debounce delay in milliseconds: changes closer together than this
    /// are grouped into one event.
    pub debounce_delay_ms: u64,
    /// Whether the file is watched continuously.
    pub continuous: bool,
}

impl Default for WatcherConfig {
    /// A two-second debounce, watching continuously.
    fn default() -> (r: WatcherConfig)
        ensures
            r.debounce_delay_ms == 2000,
            r.continuous,
    {
        WatcherConfig { debounce_delay_ms: 2000, continuous: true }
    }
}

/// What the watcher emits.
#[derive(Debug, Clone)]
pub enum WatcherEvent {
    /// The configuration file was modified; holds its path.
    ConfigModified(String),
    /// The configuration file was created; holds its path.
    ConfigCreated(String),
    /// The watcher failed; holds the description.
    Error(String),
}

/// A watcher over one Clash configuration file.
pub struct ClashConfigWatcher {
    config: WatcherConfig,
    watch_path: String,
}

impl ClashConfigWatcher {
    pub closed spec fn spec_watch_path(&self) -> Seq<char> {
        self.watch_path@
    }

    pub closed spec fn spec_config(&self) -> WatcherConfig {
        self.config
    }

    /// A watcher over `watch_path` with the default configuration,
    /// refused when no file exists there at the moment of the call.
    pub fn new(watch_path: &str) -> (r: Result<ClashConfigWatcher, String>)
        ensures
            match r {
                Ok(w) => w.spec_watch_path() == watch_path@ && w.spec_config().debounce_delay_ms
                    == 2000 && w.spec_config().continuous,
                Err(e) => e@ == "Config file does not exist: "@ + watch_path@,
            },
    {
        if !path_exists(watch_path) {
            return Err(
                String::from_str("Config file does not exist: ").concat(watch_path),
            );
        }
        Ok(ClashConfigWatcher { config: WatcherConfig::default(), watch_path: watch_path.to_owned() })
    }

    /// A watcher over `watch_path` with this configuration, refused when
    /// no file exists there at the moment of the call.
    pub fn with_config(watch_path: &str, config: WatcherConfig) -> (r: Result<
        ClashConfigWatcher,
        String,
    >)
        ensures
            match r {
                Ok(w) => w.spec_watch_path() == watch_path@ && w.spec_config() == config,
                Err(e) => e@ == "Config file does not exist: "@ + watch_path@,
            },
    {
        if !path_exists(watch_path) {
            return Err(
                String::from_str("Config file does not exist: ").concat(watch_path),
            );
        }
        Ok(ClashConfigWatcher { config, watch_path: watch_path.to_owned() })
    }

    /// The watched file's path.
    pub fn watch_path(&self) -> (r: &str)
        ensures
            r@ == self.spec_watch_path(),
    {
        self.watch_path.as_str()
    }

    /// The watcher configuration.
    pub fn config(&self) -> (r: &WatcherConfig)
        ensures
            *r == self.spec_config(),
    {
        &self.config
    }
}

} // verus!
