//! The configuration merger behind a friendlier surface: construction,
//! configuration access, and a builder for callers that set options one at
//! a time. The file I/O around a merge is the caller's.

use vstd::prelude::*;

use crate::bridge::{BridgeError, BridgeResult};
use crate::merger::clash_merger::{ClashConfigMerger, MergeResult, MergerConfig};
use crate::yaml::{parse_yaml, yaml_to_string};

verus! {

/// The configuration merger bridge.
pub struct MergerBridge {
    merger: ClashConfigMerger,
}

impl MergerBridge {
    pub closed spec fn spec_config(&self) -> MergerConfig {
        self.merger.spec_config()
    }

    /// A bridge over a merger with the default configuration.
    pub fn new() -> (r: MergerBridge)
        ensures
            r.spec_config().proxy_name@ == "Local-Chain-Proxy"@,
            r.spec_config().proxy_host@ == "127.0.0.1"@,
            r.spec_config().proxy_port == 10808,
            r.spec_config().proxy_username is None,
            r.spec_config().proxy_password is None,
            r.spec_config().create_backup,
            r.spec_config().insert_at_beginning,
            r.spec_config().chain_suffix@ == "-Chain"@,
    {
        MergerBridge { merger: ClashConfigMerger::new() }
    }

    /// A bridge over a merger with this configuration.
    pub fn with_config(config: MergerConfig) -> (r: MergerBridge)
        ensures
            r.spec_config() == config,
    {
        MergerBridge { merger: ClashConfigMerger::with_config(config) }
    }

    /// The merger configuration.
    pub fn config(&self) -> (r: &MergerConfig)
        ensures
            *r == self.spec_config(),
    {
        self.merger.config()
    }

    /// Replace the merger configuration.
    pub fn update_config(&mut self, config: MergerConfig)
        ensures
            final(self).spec_config() == config,
    {
        self.merger = ClashConfigMerger::with_config(config);
    }

    /// Merge the local proxy into Clash configuration text: parse, merge
    /// per [`ClashConfigMerger::merge_document`], serialize. On success
    /// the new text and the merge report come back; text that is not
    /// YAML, a non-mapping document, or a malformed section fails with a
    /// merger error.
    pub fn merge(&self, config_content: &str) -> (r: BridgeResult<(String, MergeResult)>)
        ensures
            match r {
                Ok(p) => p.1.backup_path is None && p.1.groups_updated <= 1
                    && p.1.warnings@.len() == 0,
                Err(e) => e is Merger,
            },
    {
        let doc = match parse_yaml(config_content) {
            Ok(d) => d,
            Err(e) => {
                return Err(BridgeError::Merger(e));
            },
        };
        let merged = match self.merger.merge_document(doc) {
            Ok(p) => p,
            Err(e) => {
                return Err(BridgeError::Merger(e));
            },
        };
        let (new_doc, result) = merged;
        match yaml_to_string(&new_doc) {
            Ok(text) => Ok((text, result)),
            Err(e) => Err(BridgeError::Merger(e)),
        }
    }
}

/// Builds a merger bridge option by option.
pub struct MergerBridgeBuilder {
    proxy_name: String,
    proxy_host: String,
    proxy_port: u16,
    create_backup: bool,
    insert_at_beginning: bool,
}

impl MergerBridgeBuilder {
    pub closed spec fn spec_proxy_name(&self) -> Seq<char> {
        self.proxy_name@
    }

    pub closed spec fn spec_proxy_host(&self) -> Seq<char> {
        self.proxy_host@
    }

    pub closed spec fn spec_proxy_port(&self) -> u16 {
        self.proxy_port
    }

    pub closed spec fn spec_create_backup(&self) -> bool {
        self.create_backup
    }

    pub closed spec fn spec_insert_at_beginning(&self) -> bool {
        self.insert_at_beginning
    }

    /// A builder with the default values.
    pub fn new() -> (r: MergerBridgeBuilder)
        ensures
            r.spec_proxy_name() == "Local-Chain-Proxy"@,
            r.spec_proxy_host() == "127.0.0.1"@,
            r.spec_proxy_port() == 10808,
            r.spec_create_backup(),
            r.spec_insert_at_beginning(),
    {
        MergerBridgeBuilder {
            proxy_name: String::from_str("Local-Chain-Proxy"),
            proxy_host: String::from_str("127.0.0.1"),
            proxy_port: 10808,
            create_backup: true,
            insert_at_beginning: true,
        }
    }

    /// Set the local proxy node's name.
    pub fn proxy_name(self, name: &str) -> (r: MergerBridgeBuilder)
        ensures
            r.spec_proxy_name() == name@,
            r.spec_proxy_host() == self.spec_proxy_host(),
            r.spec_proxy_port() == self.spec_proxy_port(),
            r.spec_create_backup() == self.spec_create_backup(),
            r.spec_insert_at_beginning() == self.spec_insert_at_beginning(),
    {
        MergerBridgeBuilder { proxy_name: name.to_owned(), ..self }
    }

    /// Set the local proxy host.
    pub fn proxy_host(self, host: &str) -> (r: MergerBridgeBuilder)
        ensures
            r.spec_proxy_host() == host@,
            r.spec_proxy_name() == self.spec_proxy_name(),
            r.spec_proxy_port() == self.spec_proxy_port(),
            r.spec_create_backup() == self.spec_create_backup(),
            r.spec_insert_at_beginning() == self.spec_insert_at_beginning(),
    {
        MergerBridgeBuilder { proxy_host: host.to_owned(), ..self }
    }

    /// Set the local proxy port.
    pub fn proxy_port(self, port: u16) -> (r: MergerBridgeBuilder)
        ensures
            r.spec_proxy_port() == port,
            r.spec_proxy_name() == self.spec_proxy_name(),
            r.spec_proxy_host() == self.spec_proxy_host(),
            r.spec_create_backup() == self.spec_create_backup(),
            r.spec_insert_at_beginning() == self.spec_insert_at_beginning(),
    {
        MergerBridgeBuilder { proxy_port: port, ..self }
    }

    /// Set whether merges back the file up first.
    pub fn create_backup(self, create: bool) -> (r: MergerBridgeBuilder)
        ensures
            r.spec_create_backup() == create,
            r.spec_proxy_name() == self.spec_proxy_name(),
            r.spec_proxy_host() == self.spec_proxy_host(),
            r.spec_proxy_port() == self.spec_proxy_port(),
            r.spec_insert_at_beginning() == self.spec_insert_at_beginning(),
    {
        MergerBridgeBuilder { create_backup: create, ..self }
    }

    /// Set whether chain groups are inserted at the beginning.
    pub fn insert_at_beginning(self, insert: bool) -> (r: MergerBridgeBuilder)
        ensures
            r.spec_insert_at_beginning() == insert,
            r.spec_proxy_name() == self.spec_proxy_name(),
            r.spec_proxy_host() == self.spec_proxy_host(),
            r.spec_proxy_port() == self.spec_proxy_port(),
            r.spec_create_backup() == self.spec_create_backup(),
    {
        MergerBridgeBuilder { insert_at_beginning: insert, ..self }
    }

    /// Assemble the bridge: the chosen options, no credentials, and the
    /// `-Chain` naming scheme.
    pub fn build(self) -> (r: MergerBridge)
        ensures
            r.spec_config().proxy_name@ == self.spec_proxy_name(),
            r.spec_config().proxy_host@ == self.spec_proxy_host(),
            r.spec_config().proxy_port == self.spec_proxy_port(),
            r.spec_config().proxy_username is None,
            r.spec_config().proxy_password is None,
            r.spec_config().create_backup == self.spec_create_backup(),
            r.spec_config().insert_at_beginning == self.spec_insert_at_beginning(),
            r.spec_config().chain_suffix@ == "-Chain"@,
    {
        let config = MergerConfig {
            proxy_name: self.proxy_name,
            proxy_host: self.proxy_host,
            proxy_port: self.proxy_port,
            proxy_username: None,
            proxy_password: None,
            create_backup: self.create_backup,
            insert_at_beginning: self.insert_at_beginning,
            chain_suffix: String::from_str("-Chain"),
        };
        MergerBridge::with_config(config)
    }
}

} // verus!
