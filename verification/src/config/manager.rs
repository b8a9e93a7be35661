//! The application configuration: the persisted upstream proxy list and
//! the settings blocks around it, with the manager's CRUD operations over
//! the list. Reading and writing the configuration file is the caller's
//! work; the manager owns the in-memory state and its rules — in
//! particular, proxy identifiers stay unique in the list.

use vstd::prelude::*;

use crate::config::upstream::UpstreamProxy;
use crate::health::checker::HealthCheckConfig as CheckerConfig;
use crate::proxy::server::{clone_opt_string, clone_upstream_config};

verus! {

/// Everything the application persists.
#[derive(Debug)]
pub struct AppConfig {
    /// The upstream proxy list.
    pub upstream_proxies: Vec<UpstreamProxy>,
    /// Clash integration settings.
    pub clash: ClashConfig,
    /// The local proxy's settings.
    pub local_proxy: LocalProxyConfig,
    /// Health check settings.
    pub health_check: HealthCheckConfig,
}

impl Default for AppConfig {
    fn default() -> (r: AppConfig)
        ensures
            r.upstream_proxies@.len() == 0,
            r.clash.config_path is None,
            !r.clash.auto_monitor,
            r.clash.auto_merge,
            r.local_proxy.name@ == "Local-Chain-Proxy"@,
            r.local_proxy.listen@ == "127.0.0.1:10808"@,
            r.health_check.enabled,
            r.health_check.interval_seconds == 300,
            r.health_check.timeout_seconds == 10,
            r.health_check.failure_threshold == 3,
    {
        AppConfig {
            upstream_proxies: Vec::new(),
            clash: ClashConfig::default(),
            local_proxy: LocalProxyConfig::default(),
            health_check: HealthCheckConfig::default(),
        }
    }
}

/// Clash integration settings.
#[derive(Debug, Clone)]
pub struct ClashConfig {
    /// Path of the Clash configuration file, when one is chosen.
    pub config_path: Option<String>,
    /// Whether the file is watched for changes.
    pub auto_monitor: bool,
    /// Whether chain proxies are merged into it automatically.
    pub auto_merge: bool,
    /// The Clash controller API settings.
    pub api: ClashApiConfig,
}

impl Default for ClashConfig {
    fn default() -> (r: ClashConfig)
        ensures
            r.config_path is None,
            !r.auto_monitor,
            r.auto_merge,
            !r.api.enabled,
            r.api.host@ == "127.0.0.1"@,
            r.api.port == 9090,
            r.api.secret is None,
    {
        ClashConfig {
            config_path: None,
            auto_monitor: false,
            auto_merge: true,
            api: ClashApiConfig::default(),
        }
    }
}

/// The Clash controller API settings.
#[derive(Debug, Clone)]
pub struct ClashApiConfig {
    /// Whether the API is used.
    pub enabled: bool,
    /// API host.
    pub host: String,
    /// API port.
    pub port: u16,
    /// API secret, when set.
    pub secret: Option<String>,
}

impl Default for ClashApiConfig {
    fn default() -> (r: ClashApiConfig)
        ensures
            !r.enabled,
            r.host@ == "127.0.0.1"@,
            r.port == 9090,
            r.secret is None,
    {
        ClashApiConfig {
            enabled: false,
            host: String::from_str("127.0.0.1"),
            port: 9090,
            secret: None,
        }
    }
}

/// The local proxy's settings.
#[derive(Debug, Clone)]
pub struct LocalProxyConfig {
    /// The node name the local proxy takes in a Clash configuration.
    pub name: String,
    /// The local listen address.
    pub listen: String,
}

impl Default for LocalProxyConfig {
    fn default() -> (r: LocalProxyConfig)
        ensures
            r.name@ == "Local-Chain-Proxy"@,
            r.listen@ == "127.0.0.1:10808"@,
    {
        LocalProxyConfig {
            name: String::from_str("Local-Chain-Proxy"),
            listen: String::from_str("127.0.0.1:10808"),
        }
    }
}

/// Health check settings as persisted.
#[derive(Debug, Clone)]
pub struct HealthCheckConfig {
    /// Whether periodic checks run.
    pub enabled: bool,
    /// Seconds between checks.
    pub interval_seconds: u64,
    /// URL fetched through a proxy to validate forwarding.
    pub test_url: String,
    /// Timeout of each check, in seconds.
    pub timeout_seconds: u64,
    /// Consecutive failures before a proxy is marked unhealthy.
    pub failure_threshold: u32,
}

impl Default for HealthCheckConfig {
    fn default() -> (r: HealthCheckConfig)
        ensures
            r.enabled,
            r.interval_seconds == 300,
            r.test_url@ == "http://www.gstatic.com/generate_204"@,
            r.timeout_seconds == 10,
            r.failure_threshold == 3,
    {
        HealthCheckConfig {
            enabled: true,
            interval_seconds: 300,
            test_url: String::from_str("http://www.gstatic.com/generate_204"),
            timeout_seconds: 10,
            failure_threshold: 3,
        }
    }
}

impl HealthCheckConfig {
    /// The same settings in the checker's shape.
    pub fn to_checker_config(&self) -> (r: CheckerConfig)
        ensures
            r.timeout_secs == self.timeout_seconds,
            r.test_url == self.test_url,
            r.failure_threshold == self.failure_threshold,
            r.check_interval_secs == self.interval_seconds,
    {
        CheckerConfig {
            timeout_secs: self.timeout_seconds,
            test_url: self.test_url.clone(),
            failure_threshold: self.failure_threshold,
            check_interval_secs: self.interval_seconds,
        }
    }
}

/// Copy a proxy's health state field by field.
pub(crate) fn clone_proxy_health(h: &crate::config::upstream::ProxyHealth) -> (r:
    crate::config::upstream::ProxyHealth)
    ensures
        r == *h,
{
    crate::config::upstream::ProxyHealth {
        status: h.status,
        latency_ms: h.latency_ms,
        last_check: h.last_check,
        error: clone_opt_string(&h.error),
        consecutive_failures: h.consecutive_failures,
        exit_ip: clone_opt_string(&h.exit_ip),
        location: clone_opt_string(&h.location),
        country_code: clone_opt_string(&h.country_code),
    }
}

/// Copy an upstream proxy record field by field.
pub(crate) fn clone_upstream_proxy(p: &UpstreamProxy) -> (r: UpstreamProxy)
    ensures
        r == *p,
{
    UpstreamProxy {
        id: p.id.clone(),
        name: p.name.clone(),
        enabled: p.enabled,
        config: clone_upstream_config(&p.config),
        health: clone_proxy_health(&p.health),
    }
}

/// First position of the proxy with this identifier.
pub open spec fn spec_find_proxy(proxies: Seq<UpstreamProxy>, id: Seq<char>) -> Option<int>
    decreases proxies.len(),
{
    if proxies.len() == 0 {
        None
    } else if proxies[0].id@ == id {
        Some(0int)
    } else {
        match spec_find_proxy(proxies.skip(1), id) {
            Some(i) => Some(i + 1),
            None => None,
        }
    }
}

pub proof fn lemma_find_proxy_characterization(proxies: Seq<UpstreamProxy>, id: Seq<char>)
    ensures
        match spec_find_proxy(proxies, id) {
            Some(i) => 0 <= i < proxies.len() && proxies[i].id@ == id && forall|j: int|
                0 <= j < i ==> proxies[j].id@ != id,
            None => forall|j: int| 0 <= j < proxies.len() ==> proxies[j].id@ != id,
        },
    decreases proxies.len(),
{
    if proxies.len() > 0 && proxies[0].id@ != id {
        lemma_find_proxy_characterization(proxies.skip(1), id);
        match spec_find_proxy(proxies.skip(1), id) {
            Some(i) => {
                assert(proxies.skip(1)[i] == proxies[i + 1]);
                assert forall|j: int| 0 <= j < i + 1 implies proxies[j].id@ != id by {
                    if j > 0 {
                        assert(proxies.skip(1)[j - 1] == proxies[j]);
                    }
                }
            },
            None => {
                assert forall|j: int| 0 <= j < proxies.len() implies proxies[j].id@ != id by {
                    if j > 0 {
                        assert(proxies.skip(1)[j - 1] == proxies[j]);
                    }
                }
            },
        }
    }
}

/// The configuration manager: the configuration file's path and the
/// in-memory state read from it. Loading and saving the file belong to
/// the caller; every operation here leaves the state it promises.
pub struct ConfigManager {
    config_path: String,
    config: AppConfig,
}

impl ConfigManager {
    pub closed spec fn spec_config_path(&self) -> Seq<char> {
        self.config_path@
    }

    pub closed spec fn spec_config(&self) -> AppConfig {
        self.config
    }

    /// The proxy list, as the contracts below speak of it.
    pub open spec fn spec_proxies(&self) -> Seq<UpstreamProxy> {
        self.spec_config().upstream_proxies@
    }

    /// A manager over state already read from (or destined for) the file
    /// at `config_path`.
    pub fn with_config(config_path: String, config: AppConfig) -> (r: ConfigManager)
        ensures
            r.spec_config_path() == config_path@,
            r.spec_config() == config,
    {
        ConfigManager { config_path, config }
    }

    /// The configuration.
    pub fn config(&self) -> (r: &AppConfig)
        ensures
            *r == self.spec_config(),
    {
        &self.config
    }

    /// Replace the configuration wholesale.
    pub fn set_config(&mut self, config: AppConfig)
        ensures
            final(self).spec_config() == config,
            final(self).spec_config_path() == old(self).spec_config_path(),
    {
        self.config = config;
    }

    /// The configuration file's path.
    pub fn config_path(&self) -> (r: &str)
        ensures
            r@ == self.spec_config_path(),
    {
        self.config_path.as_str()
    }

    /// Add a proxy; refused when one with the same identifier is present,
    /// so identifiers stay unique.
    pub fn add_upstream(&mut self, proxy: UpstreamProxy) -> (r: Result<(), String>)
        ensures
            final(self).spec_config_path() == old(self).spec_config_path(),
            match r {
                Ok(_) => spec_find_proxy(old(self).spec_proxies(), proxy.id@) is None
                    && final(self).spec_proxies() == old(self).spec_proxies().push(proxy),
                Err(e) => spec_find_proxy(old(self).spec_proxies(), proxy.id@) is Some
                    && final(self).spec_proxies() == old(self).spec_proxies()
                    && e@.len() > 0,
            },
    {
        proof {
            lemma_find_proxy_characterization(self.spec_proxies(), proxy.id@);
        }
        match self.find_index(proxy.id.as_str()) {
            Some(_) => {
                proof {
                    reveal_strlit("Proxy with ID ");
                }
                Err(
                    String::from_str("Proxy with ID ").concat(proxy.id.as_str()).concat(
                        " already exists",
                    ),
                )
            },
            None => {
                self.config.upstream_proxies.push(proxy);
                Ok(())
            },
        }
    }

    /// Position of the proxy with this identifier.
    fn find_index(&self, id: &str) -> (r: Option<usize>)
        ensures
            match r {
                Some(i) => spec_find_proxy(self.spec_proxies(), id@) == Some(i as int),
                None => spec_find_proxy(self.spec_proxies(), id@) is None,
            },
    {
        proof {
            lemma_find_proxy_characterization(self.spec_proxies(), id@);
        }
        let id_string: String = id.to_owned();
        let proxies = &self.config.upstream_proxies;
        let mut i: usize = 0;
        while i < proxies.len()
            invariant
                i <= proxies@.len(),
                id_string@ == id@,
                proxies@ == self.spec_proxies(),
                forall|j: int| 0 <= j < i ==> proxies@[j].id@ != id@,
                match spec_find_proxy(self.spec_proxies(), id@) {
                    Some(k) => 0 <= k < self.spec_proxies().len() && self.spec_proxies()[k].id@
                        == id@ && forall|j: int|
                        0 <= j < k ==> self.spec_proxies()[j].id@ != id@,
                    None => forall|j: int|
                        0 <= j < self.spec_proxies().len() ==> self.spec_proxies()[j].id@ != id@,
                },
            decreases proxies@.len() - i,
        {
            let p: &UpstreamProxy = &proxies[i];
            if p.id == id_string {
                return Some(i);
            }
            i = i + 1;
        }
        None
    }

    /// Remove the proxy with this identifier; refused when none carries
    /// it.
    pub fn remove_upstream(&mut self, id: &str) -> (r: Result<(), String>)
        ensures
            final(self).spec_config_path() == old(self).spec_config_path(),
            match r {
                Ok(_) => spec_find_proxy(old(self).spec_proxies(), id@) is Some
                    && final(self).spec_proxies() == old(self).spec_proxies().filter(
                    |p: UpstreamProxy| p.id@ != id@,
                ),
                Err(e) => spec_find_proxy(old(self).spec_proxies(), id@) is None
                    && final(self).spec_proxies() == old(self).spec_proxies()
                    && e@.len() > 0,
            },
    {
        proof {
            lemma_find_proxy_characterization(self.spec_proxies(), id@);
        }
        let found = self.find_index(id);
        match found {
            None => {
                proof {
                    reveal_strlit("Proxy with ID ");
                }
                Err(String::from_str("Proxy with ID ").concat(id).concat(" not found"))
            },
            Some(_) => {
                let ghost before = self.spec_proxies();
                let ghost pred = |p: UpstreamProxy| p.id@ != id@;
                let id_string: String = id.to_owned();
                let mut kept: Vec<UpstreamProxy> = Vec::new();
                let proxies = &self.config.upstream_proxies;
                let mut i: usize = 0;
                proof {
                    reveal(Seq::filter);
                    assert(before.take(0) =~= Seq::<UpstreamProxy>::empty());
                    assert(Seq::<UpstreamProxy>::empty().filter(pred) =~= Seq::<
                        UpstreamProxy,
                    >::empty());
                }
                while i < proxies.len()
                    invariant
                        i <= proxies@.len(),
                        id_string@ == id@,
                        proxies@ == before,
                        pred == (|p: UpstreamProxy| p.id@ != id@),
                        kept@ == before.take(i as int).filter(pred),
                    decreases proxies@.len() - i,
                {
                    let p: &UpstreamProxy = &proxies[i];
                    proof {
                        reveal(Seq::filter);
                        assert(before.take(i + 1).drop_last() =~= before.take(i as int));
                        assert(before.take(i + 1).last() == before[i as int]);
                        assert(pred(before[i as int]) == (before[i as int].id@ != id@));
                        if pred(before[i as int]) {
                            assert(before.take(i + 1).filter(pred) =~= before.take(
                                i as int,
                            ).filter(pred).push(before[i as int]));
                        } else {
                            assert(before.take(i + 1).filter(pred) =~= before.take(
                                i as int,
                            ).filter(pred));
                        }
                    }
                    if !(p.id == id_string) {
                        kept.push(clone_upstream_proxy(p));
                    }
                    i = i + 1;
                }
                proof {
                    assert(before.take(proxies@.len() as int) =~= before);
                }
                self.config.upstream_proxies = kept;
                Ok(())
            },
        }
    }

    /// Replace the proxy that carries the given record's identifier;
    /// refused when none does.
    pub fn update_upstream(&mut self, proxy: UpstreamProxy) -> (r: Result<(), String>)
        ensures
            final(self).spec_config_path() == old(self).spec_config_path(),
            match r {
                Ok(_) => match spec_find_proxy(old(self).spec_proxies(), proxy.id@) {
                    Some(i) => final(self).spec_proxies() == old(self).spec_proxies().update(
                        i,
                        proxy,
                    ),
                    None => false,
                },
                Err(e) => spec_find_proxy(old(self).spec_proxies(), proxy.id@) is None
                    && final(self).spec_proxies() == old(self).spec_proxies()
                    && e@.len() > 0,
            },
    {
        proof {
            lemma_find_proxy_characterization(self.spec_proxies(), proxy.id@);
        }
        let found = self.find_index(proxy.id.as_str());
        match found {
            None => {
                proof {
                    reveal_strlit("Proxy with ID ");
                }
                Err(
                    String::from_str("Proxy with ID ").concat(proxy.id.as_str()).concat(
                        " not found",
                    ),
                )
            },
            Some(i) => {
                self.config.upstream_proxies[i] = proxy;
                Ok(())
            },
        }
    }

    /// The proxy with this identifier, when present.
    pub fn get_upstream(&self, id: &str) -> (r: Option<&UpstreamProxy>)
        ensures
            match r {
                Some(p) => match spec_find_proxy(self.spec_proxies(), id@) {
                    Some(i) => *p == self.spec_proxies()[i],
                    None => false,
                },
                None => spec_find_proxy(self.spec_proxies(), id@) is None,
            },
    {
        proof {
            lemma_find_proxy_characterization(self.spec_proxies(), id@);
        }
        match self.find_index(id) {
            Some(i) => Some(&self.config.upstream_proxies[i]),
            None => None,
        }
    }

    /// All proxies, in order.
    pub fn list_upstreams(&self) -> (r: &Vec<UpstreamProxy>)
        ensures
            r@ == self.spec_proxies(),
    {
        &self.config.upstream_proxies
    }

    /// The enabled proxies, in order.
    pub fn list_enabled_upstreams(&self) -> (r: Vec<UpstreamProxy>)
        ensures
            r@ == self.spec_proxies().filter(|p: UpstreamProxy| p.enabled),
    {
        let ghost pred = |p: UpstreamProxy| p.enabled;
        let proxies = &self.config.upstream_proxies;
        let mut out: Vec<UpstreamProxy> = Vec::new();
        let mut i: usize = 0;
        proof {
            reveal(Seq::filter);
            assert(proxies@.take(0) =~= Seq::<UpstreamProxy>::empty());
            assert(Seq::<UpstreamProxy>::empty().filter(pred) =~= Seq::<UpstreamProxy>::empty());
        }
        while i < proxies.len()
            invariant
                i <= proxies@.len(),
                proxies@ == self.spec_proxies(),
                pred == (|p: UpstreamProxy| p.enabled),
                out@ == proxies@.take(i as int).filter(pred),
            decreases proxies@.len() - i,
        {
            let p: &UpstreamProxy = &proxies[i];
            proof {
                reveal(Seq::filter);
                assert(proxies@.take(i + 1).drop_last() =~= proxies@.take(i as int));
                assert(proxies@.take(i + 1).last() == proxies@[i as int]);
                assert(pred(proxies@[i as int]) == proxies@[i as int].enabled);
                if pred(proxies@[i as int]) {
                    assert(proxies@.take(i + 1).filter(pred) =~= proxies@.take(i as int).filter(
                        pred,
                    ).push(proxies@[i as int]));
                } else {
                    assert(proxies@.take(i + 1).filter(pred) =~= proxies@.take(i as int).filter(
                        pred,
                    ));
                }
            }
            if p.enabled {
                out.push(clone_upstream_proxy(p));
            }
            i = i + 1;
        }
        proof {
            assert(proxies@.take(proxies@.len() as int) =~= proxies@);
        }
        out
    }

    /// Enable or disable the proxy with this identifier; refused when none
    /// carries it. Only the `enabled` flag changes.
    pub fn set_upstream_enabled(&mut self, id: &str, enabled: bool) -> (r: Result<(), String>)
        ensures
            final(self).spec_config_path() == old(self).spec_config_path(),
            match r {
                Ok(_) => match spec_find_proxy(old(self).spec_proxies(), id@) {
                    Some(i) => {
                        let updated = final(self).spec_proxies()[i];
                        &&& final(self).spec_proxies().len() == old(self).spec_proxies().len()
                        &&& final(self).spec_proxies() == old(self).spec_proxies().update(
                            i,
                            updated,
                        )
                        &&& updated.enabled == enabled
                        &&& updated.id == old(self).spec_proxies()[i].id
                        &&& updated.name == old(self).spec_proxies()[i].name
                        &&& updated.config == old(self).spec_proxies()[i].config
                        &&& updated.health == old(self).spec_proxies()[i].health
                    },
                    None => false,
                },
                Err(e) => spec_find_proxy(old(self).spec_proxies(), id@) is None
                    && final(self).spec_proxies() == old(self).spec_proxies()
                    && e@.len() > 0,
            },
    {
        proof {
            lemma_find_proxy_characterization(self.spec_proxies(), id@);
        }
        let found = self.find_index(id);
        match found {
            None => {
                proof {
                    reveal_strlit("Proxy with ID ");
                }
                Err(String::from_str("Proxy with ID ").concat(id).concat(" not found"))
            },
            Some(i) => {
                let current: &UpstreamProxy = &self.config.upstream_proxies[i];
                let mut updated = clone_upstream_proxy(current);
                updated.enabled = enabled;
                self.config.upstream_proxies[i] = updated;
                Ok(())
            },
        }
    }
}

} // verus!
