//! The Clash configuration merger: adds the local proxy node to a Clash
//! document, creates one relay chain group per existing proxy so traffic
//! can route through the local SOCKS5 hop, rebuilds the `Chain-Selector`
//! and `Chain-Auto` summary groups, and offers them in the main entry
//! group. The whole transformation works on parsed documents; reading and
//! writing the file, and keeping a backup, are the caller's.

use vstd::prelude::*;

use crate::patcher::{
    append_entries, append_nodes, collect_names, contains_string, name_of, spec_has_proxy_name,
    spec_name_of, spec_proxy_names,
};
use crate::strutil::{
    chars_to_string, ends_with_chars, spec_ends_with, spec_starts_with, split_char,
    starts_with_chars, to_chars, trim_chars,
};
use crate::yaml::{
    entries_get, lemma_entries_remove_get_other, remove_entry, spec_entries_get, spec_is_text,
    text_node, YamlValue,
};

verus! {

/// What the merger inserts and how.
#[derive(Debug, Clone)]
pub struct MergerConfig {
    /// Name of the local proxy node.
    pub proxy_name: String,
    /// Local proxy server host.
    pub proxy_host: String,
    /// Local proxy server port.
    pub proxy_port: u16,
    /// SOCKS5 username, when the local proxy requires one.
    pub proxy_username: Option<String>,
    /// SOCKS5 password, when the local proxy requires one.
    pub proxy_password: Option<String>,
    /// Whether a backup of the file is made before merging.
    pub create_backup: bool,
    /// Whether chain groups are inserted at the beginning of groups.
    pub insert_at_beginning: bool,
    /// Suffix appended to a proxy's name to name its chain group.
    pub chain_suffix: String,
}

impl Default for MergerConfig {
    /// The local chain proxy on `127.0.0.1:10808`, with backups, insertion
    /// at the beginning, and `-Chain` naming.
    fn default() -> (r: MergerConfig)
        ensures
            r.proxy_name@ == "Local-Chain-Proxy"@,
            r.proxy_host@ == "127.0.0.1"@,
            r.proxy_port == 10808,
            r.proxy_username is None,
            r.proxy_password is None,
            r.create_backup,
            r.insert_at_beginning,
            r.chain_suffix@ == "-Chain"@,
    {
        MergerConfig {
            proxy_name: String::from_str("Local-Chain-Proxy"),
            proxy_host: String::from_str("127.0.0.1"),
            proxy_port: 10808,
            proxy_username: None,
            proxy_password: None,
            create_backup: true,
            insert_at_beginning: true,
            chain_suffix: String::from_str("-Chain"),
        }
    }
}

/// What one merge changed.
#[derive(Debug, Clone)]
pub struct MergeResult {
    /// Whether the local proxy node was added (false when it existed and
    /// was updated in place).
    pub proxy_added: bool,
    /// How many proxy groups received the chain selector entries.
    pub groups_updated: usize,
    /// How many chain relay groups were created.
    pub chains_created: usize,
    /// Path of the backup file, when one was made.
    pub backup_path: Option<String>,
    /// Anything odd the merge tolerated.
    pub warnings: Vec<String>,
}

/// The Clash configuration merger: creates relay chain groups that route
/// each existing proxy through the local SOCKS5 proxy.
pub struct ClashConfigMerger {
    config: MergerConfig,
}

impl ClashConfigMerger {
    pub closed spec fn spec_config(&self) -> MergerConfig {
        self.config
    }

    /// A merger with the default configuration.
    pub fn new() -> (r: ClashConfigMerger)
        ensures
            r.spec_config().proxy_name@ == "Local-Chain-Proxy"@,
            r.spec_config().proxy_host@ == "127.0.0.1"@,
            r.spec_config().proxy_port == 10808,
            r.spec_config().proxy_username is None,
            r.spec_config().proxy_password is None,
            r.spec_config().create_backup,
            r.spec_config().insert_at_beginning,
            r.spec_config().chain_suffix@ == "-Chain"@,
    {
        ClashConfigMerger { config: MergerConfig::default() }
    }

    /// A merger with this configuration.
    pub fn with_config(config: MergerConfig) -> (r: ClashConfigMerger)
        ensures
            r.spec_config() == config,
    {
        ClashConfigMerger { config }
    }

    /// The merger configuration.
    pub fn config(&self) -> (r: &MergerConfig)
        ensures
            *r == self.spec_config(),
    {
        &self.config
    }
}


/// First position of the node named `name`, scanning in order.
pub open spec fn spec_find_named(items: Seq<YamlValue>, name: Seq<char>) -> Option<int>
    decreases items.len(),
{
    if items.len() == 0 {
        None
    } else if spec_name_of(items[0]) matches Some(n) && n@ == name {
        Some(0int)
    } else {
        match spec_find_named(items.skip(1), name) {
            Some(i) => Some(i + 1),
            None => None,
        }
    }
}

proof fn lemma_find_named_characterization(items: Seq<YamlValue>, name: Seq<char>)
    ensures
        match spec_find_named(items, name) {
            Some(i) => 0 <= i < items.len() && (spec_name_of(items[i]) matches Some(n) && n@
                == name),
            None => true,
        },
    decreases items.len(),
{
    if items.len() > 0 && !(spec_name_of(items[0]) matches Some(n) && n@ == name) {
        lemma_find_named_characterization(items.skip(1), name);
        match spec_find_named(items.skip(1), name) {
            Some(i) => {
                assert(items.skip(1)[i] == items[i + 1]);
            },
            None => {},
        }
    }
}

/// Whether some node in the list carries this string `name`.
pub open spec fn spec_has_named(items: Seq<YamlValue>, name: Seq<char>) -> bool {
    exists|i: int|
        0 <= i < items.len() && (spec_name_of(#[trigger] items[i]) matches Some(n) && n@ == name)
}

fn find_named(items: &Vec<YamlValue>, target: &String) -> (r: Option<usize>)
    ensures
        match r {
            Some(i) => spec_find_named(items@, target@) == Some(i as int) && i < items@.len(),
            None => spec_find_named(items@, target@) is None,
        },
{
    let mut i: usize = 0;
    proof {
        assert(items@.skip(0) =~= items@);
    }
    while i < items.len()
        invariant
            i <= items@.len(),
            spec_find_named(items@, target@) == (match spec_find_named(
                items@.skip(i as int),
                target@,
            ) {
                Some(k) => Some(k + i),
                None => None,
            }),
        decreases items@.len() - i,
    {
        proof {
            assert(items@.skip(i as int)[0] == items@[i as int]);
            assert(items@.skip(i as int).skip(1) =~= items@.skip(i as int + 1));
        }
        let hit = match name_of(&items[i]) {
            Some(n) => n == *target,
            None => false,
        };
        if hit {
            return Some(i);
        }
        i = i + 1;
    }
    None
}

/// How a freshly inserted local proxy node looks: name, type `socks5`,
/// server and port, then a credential field for each nonempty credential.
pub open spec fn spec_merger_node(v: YamlValue, c: MergerConfig) -> bool {
    match v {
        YamlValue::Mapping(es) => {
            let extra_user: int = if c.proxy_username is Some && c.proxy_username.unwrap()@.len()
                > 0 {
                1
            } else {
                0
            };
            let extra_pass: int = if c.proxy_password is Some && c.proxy_password.unwrap()@.len()
                > 0 {
                1
            } else {
                0
            };
            &&& es@.len() == 4 + extra_user + extra_pass
            &&& spec_is_text(es@[0].0, "name"@) && spec_is_text(es@[0].1, c.proxy_name@)
            &&& spec_is_text(es@[1].0, "type"@) && spec_is_text(es@[1].1, "socks5"@)
            &&& spec_is_text(es@[2].0, "server"@) && spec_is_text(es@[2].1, c.proxy_host@)
            &&& spec_is_text(es@[3].0, "port"@) && es@[3].1 == YamlValue::Int(c.proxy_port as i64)
            &&& (extra_user == 1 ==> spec_is_text(es@[4].0, "username"@) && spec_is_text(
                es@[4].1,
                c.proxy_username.unwrap()@,
            ))
            &&& (extra_pass == 1 ==> spec_is_text(es@[4 + extra_user].0, "password"@)
                && spec_is_text(es@[4 + extra_user].1, c.proxy_password.unwrap()@))
        },
        _ => false,
    }
}

/// How an updated local proxy node relates to what stood there: still a
/// mapping, its `name` untouched, its `server` and `port` now the
/// configured ones, each nonempty credential present.
pub open spec fn spec_updated_node(old_node: YamlValue, new_node: YamlValue, c: MergerConfig) -> bool {
    match new_node {
        YamlValue::Mapping(es) => {
            &&& old_node is Mapping
            &&& (old_node matches YamlValue::Mapping(oes) ==> spec_entries_get(es@, "name"@)
                == spec_entries_get(oes@, "name"@))
            &&& spec_entries_get(es@, "server"@) matches Some(sv) && spec_is_text(
                sv,
                c.proxy_host@,
            )
            &&& spec_entries_get(es@, "port"@) == Some(YamlValue::Int(c.proxy_port as i64))
            &&& (c.proxy_username is Some && c.proxy_username.unwrap()@.len() > 0
                ==> (spec_entries_get(es@, "username"@) matches Some(uv) && spec_is_text(
                uv,
                c.proxy_username.unwrap()@,
            )))
            &&& (c.proxy_password is Some && c.proxy_password.unwrap()@.len() > 0
                ==> (spec_entries_get(es@, "password"@) matches Some(pv) && spec_is_text(
                pv,
                c.proxy_password.unwrap()@,
            )))
        },
        _ => !(old_node is Mapping) && new_node == old_node,
    }
}

fn push_credentials(entries: &mut Vec<(YamlValue, YamlValue)>, c: &MergerConfig)
    ensures
        ({
            let extra_user: int = if c.proxy_username is Some && c.proxy_username.unwrap()@.len()
                > 0 {
                1
            } else {
                0
            };
            let extra_pass: int = if c.proxy_password is Some && c.proxy_password.unwrap()@.len()
                > 0 {
                1
            } else {
                0
            };
            let n = old(entries)@.len() as int;
            &&& final(entries)@.len() == n + extra_user + extra_pass
            &&& final(entries)@.take(n) == old(entries)@
            &&& (extra_user == 1 ==> spec_is_text(final(entries)@[n].0, "username"@)
                && spec_is_text(final(entries)@[n].1, c.proxy_username.unwrap()@))
            &&& (extra_pass == 1 ==> spec_is_text(final(entries)@[n + extra_user].0, "password"@)
                && spec_is_text(final(entries)@[n + extra_user].1, c.proxy_password.unwrap()@))
        }),
{
    let ghost n = entries@.len() as int;
    match &c.proxy_username {
        Some(user) => {
            if !user.as_str().is_empty() {
                entries.push((text_node("username"), YamlValue::Str(user.clone())));
            }
        },
        None => {},
    }
    match &c.proxy_password {
        Some(pass) => {
            if !pass.as_str().is_empty() {
                entries.push((text_node("password"), YamlValue::Str(pass.clone())));
            }
        },
        None => {},
    }
    proof {
        assert(entries@.take(n) =~= old(entries)@);
    }
}

/// Build a fresh local proxy node.
fn build_merger_node(c: &MergerConfig) -> (r: YamlValue)
    ensures
        spec_merger_node(r, *c),
{
    let mut entries: Vec<(YamlValue, YamlValue)> = Vec::new();
    entries.push((text_node("name"), YamlValue::Str(c.proxy_name.clone())));
    entries.push((text_node("type"), text_node("socks5")));
    entries.push((text_node("server"), YamlValue::Str(c.proxy_host.clone())));
    entries.push((text_node("port"), YamlValue::Int(c.proxy_port as i64)));
    push_credentials(&mut entries, c);
    proof {
        assert(entries@[0] == entries@.take(4)[0]);
        assert(entries@[1] == entries@.take(4)[1]);
        assert(entries@[2] == entries@.take(4)[2]);
        assert(entries@[3] == entries@.take(4)[3]);
    }
    YamlValue::Mapping(entries)
}

/// Rewrite an existing local proxy node: new server, port and
/// credentials, everything else kept. A node that is not a mapping is
/// left alone, as the merger has nothing to update in it.
fn update_proxy_node(node: YamlValue, c: &MergerConfig) -> (r: YamlValue)
    ensures
        spec_updated_node(node, r, *c),
{
    let entries = match node {
        YamlValue::Mapping(es) => es,
        other => {
            return other;
        },
    };
    let ghost oes = entries@;
    let (rest1, _old_server) = remove_entry(entries, "server");
    let ghost r1 = rest1@;
    let (rest2, _old_port) = remove_entry(rest1, "port");
    let ghost r2 = rest2@;
    let (rest3, _old_user) = remove_entry(rest2, "username");
    let ghost r3 = rest3@;
    let (rest4, _old_pass) = remove_entry(rest3, "password");
    let ghost r4 = rest4@;
    let mut head: Vec<(YamlValue, YamlValue)> = Vec::new();
    head.push((text_node("server"), YamlValue::Str(c.proxy_host.clone())));
    head.push((text_node("port"), YamlValue::Int(c.proxy_port as i64)));
    push_credentials(&mut head, c);
    proof {
        assert(head@[0] == head@.take(2)[0]);
        assert(head@[1] == head@.take(2)[1]);
    }
    let ghost head_seq = head@;
    let out = append_entries(head, rest4);
    let r = YamlValue::Mapping(out);
    proof {
        reveal_strlit("server");
        reveal_strlit("port");
        reveal_strlit("username");
        reveal_strlit("password");
        reveal_strlit("name");
        assert("server"@.len() == 6);
        assert("port"@.len() == 4);
        assert("username"@.len() == 8);
        assert("password"@.len() == 8);
        assert("name"@.len() == 4);
        assert("username"@[0] == 'u');
        assert("password"@[0] == 'p');
        assert("name"@[0] == 'n');
        assert("port"@[0] == 'p');
        let es = out@;
        let has_user = c.proxy_username is Some && c.proxy_username.unwrap()@.len() > 0;
        let has_pass = c.proxy_password is Some && c.proxy_password.unwrap()@.len() > 0;
        let pu: int = if has_user {
            1
        } else {
            0
        };
        assert(es[0] == head_seq[0]);
        assert(es[1] == head_seq[1]);
        assert(spec_entries_get(es, "server"@) == Some(es[0].1));
        assert(!spec_is_text(es[0].0, "port"@));
        assert(es.skip(1)[0] == es[1]);
        assert(spec_entries_get(es, "port"@) == spec_entries_get(es.skip(1), "port"@));
        assert(spec_entries_get(es.skip(1), "port"@) == Some(es[1].1));
        assert(es.skip(1).skip(1) =~= es.skip(2));
        if has_user {
            assert(es[2] == head_seq[2]);
            assert(!spec_is_text(es[0].0, "username"@));
            assert(!spec_is_text(es[1].0, "username"@));
            assert(es.skip(2)[0] == es[2]);
            assert(spec_entries_get(es, "username"@) == spec_entries_get(es.skip(1), "username"@));
            assert(spec_entries_get(es.skip(1), "username"@) == spec_entries_get(
                es.skip(2),
                "username"@,
            ));
            assert(spec_entries_get(es.skip(2), "username"@) == Some(es[2].1));
        }
        if has_pass {
            assert(es[2 + pu] == head_seq[2 + pu]);
            assert(!spec_is_text(es[0].0, "password"@));
            assert(!spec_is_text(es[1].0, "password"@));
            assert(es.skip(2)[0] == es[2]);
            assert(spec_entries_get(es, "password"@) == spec_entries_get(es.skip(1), "password"@));
            assert(spec_entries_get(es.skip(1), "password"@) == spec_entries_get(
                es.skip(2),
                "password"@,
            ));
            if pu == 1 {
                assert(!spec_is_text(es[2].0, "password"@));
                assert(es.skip(2).skip(1) =~= es.skip(3));
                assert(es.skip(3)[0] == es[3]);
                assert(es[3] == head_seq[3]);
                assert(spec_entries_get(es.skip(2), "password"@) == spec_entries_get(
                    es.skip(3),
                    "password"@,
                ));
                assert(spec_entries_get(es.skip(3), "password"@) == Some(es[3].1));
            } else {
                assert(spec_entries_get(es.skip(2), "password"@) == Some(es[2].1));
            }
        }
        // the name entry is untouched: it is none of the head keys and
        // none of the removed ones
        let hlen: int = 2 + pu + (if has_pass {
            1int
        } else {
            0int
        });
        assert(!spec_is_text(es[0].0, "name"@));
        assert(!spec_is_text(es[1].0, "name"@));
        assert(spec_entries_get(es, "name"@) == spec_entries_get(es.skip(1), "name"@));
        assert(spec_entries_get(es.skip(1), "name"@) == spec_entries_get(es.skip(2), "name"@));
        if hlen >= 3 {
            assert(es.skip(2)[0] == es[2]);
            assert(es[2] == head_seq[2]);
            assert(!spec_is_text(es[2].0, "name"@));
            assert(es.skip(2).skip(1) =~= es.skip(3));
            assert(spec_entries_get(es.skip(2), "name"@) == spec_entries_get(es.skip(3), "name"@));
        }
        if hlen == 4 {
            assert(es.skip(3)[0] == es[3]);
            assert(es[3] == head_seq[3]);
            assert(!spec_is_text(es[3].0, "name"@));
            assert(es.skip(3).skip(1) =~= es.skip(4));
            assert(spec_entries_get(es.skip(3), "name"@) == spec_entries_get(es.skip(4), "name"@));
        }
        assert(es.skip(hlen) =~= r4);
        lemma_entries_remove_get_other(r3, "password"@, "name"@);
        lemma_entries_remove_get_other(r2, "username"@, "name"@);
        lemma_entries_remove_get_other(r1, "port"@, "name"@);
        lemma_entries_remove_get_other(oes, "server"@, "name"@);
    }
    r
}

/// Add the local proxy node to a `proxies` list, or bring the node that
/// already carries its name up to date. The second result says whether a
/// node was added.
fn add_proxy_node(items: Vec<YamlValue>, c: &MergerConfig) -> (r: (Vec<YamlValue>, bool))
    ensures
        spec_has_named(r.0@, c.proxy_name@),
        match spec_find_named(items@, c.proxy_name@) {
            Some(i) => !r.1 && r.0@.len() == items@.len() && (forall|j: int|
                0 <= j < items@.len() && j != i ==> r.0@[j] == items@[j]) && spec_updated_node(
                items@[i],
                r.0@[i],
                *c,
            ),
            None => r.1 && r.0@.len() == items@.len() + 1 && r.0@.take(items@.len() as int)
                == items@ && spec_merger_node(r.0@.last(), *c),
        },
{
    let ghost before = items@;
    let mut items = items;
    match find_named(&items, &c.proxy_name) {
        Some(i) => {
            proof {
                lemma_find_named_characterization(before, c.proxy_name@);
            }
            let node = items.remove(i);
            let updated = update_proxy_node(node, c);
            let ghost u = updated;
            items.insert(i, updated);
            proof {
                assert(items@ =~= before.update(i as int, u));
                // the updated node keeps its name, so the list still
                // carries one named after the local proxy
                assert(before[i as int] is Mapping);
                assert(spec_name_of(u) == spec_name_of(before[i as int]));
                assert(spec_name_of(items@[i as int]) matches Some(n) && n@ == c.proxy_name@);
            }
            (items, false)
        },
        None => {
            let node = build_merger_node(c);
            items.push(node);
            proof {
                reveal_strlit("name");
                assert(items@.take(before.len() as int) =~= before);
                let last = items@.last();
                assert(spec_merger_node(last, *c));
                match last {
                    YamlValue::Mapping(es) => {
                        assert(spec_entries_get(es@, "name"@) == Some(es@[0].1));
                        assert(spec_name_of(last) matches Some(n) && n@ == c.proxy_name@);
                    },
                    _ => {
                        assert(false);
                    },
                }
                assert(spec_name_of(items@[items@.len() - 1]) matches Some(n) && n@
                    == c.proxy_name@);
            }
            (items, true)
        },
    }
}


/// Format a proxy's chain group name: the proxy name, then the suffix.
fn chain_suffix_name(p: &String, suffix: &String) -> (r: String)
    ensures
        r@ == p@ + suffix@,
{
    p.clone().concat(suffix.as_str())
}

/// How one relay chain group looks in a merged configuration: named after
/// the proxy plus the chain suffix, of type `relay`, routing first through
/// the proxy and then through the local node, with the benchmark fields a
/// relay group needs for latency testing.
pub open spec fn spec_merger_relay(v: YamlValue, p: Seq<char>, c: MergerConfig) -> bool {
    match v {
        YamlValue::Mapping(es) => {
            &&& es@.len() == 5
            &&& spec_is_text(es@[0].0, "name"@) && spec_is_text(es@[0].1, p + c.chain_suffix@)
            &&& spec_is_text(es@[1].0, "type"@) && spec_is_text(es@[1].1, "relay"@)
            &&& spec_is_text(es@[2].0, "proxies"@) && (match es@[2].1 {
                YamlValue::List(ps) => ps@.len() == 2 && spec_is_text(ps@[0], p) && spec_is_text(
                    ps@[1],
                    c.proxy_name@,
                ),
                _ => false,
            })
            &&& spec_is_text(es@[3].0, "benchmark-url"@) && spec_is_text(
                es@[3].1,
                "http://www.gstatic.com/generate_204"@,
            )
            &&& spec_is_text(es@[4].0, "benchmark-timeout"@) && es@[4].1 == YamlValue::Int(5)
        },
        _ => false,
    }
}

fn build_merger_relay(p: &String, c: &MergerConfig) -> (r: YamlValue)
    ensures
        spec_merger_relay(r, p@, *c),
{
    let mut proxies: Vec<YamlValue> = Vec::new();
    proxies.push(YamlValue::Str(p.clone()));
    proxies.push(YamlValue::Str(c.proxy_name.clone()));
    let mut entries: Vec<(YamlValue, YamlValue)> = Vec::new();
    entries.push((text_node("name"), YamlValue::Str(chain_suffix_name(p, &c.chain_suffix))));
    entries.push((text_node("type"), text_node("relay")));
    entries.push((text_node("proxies"), YamlValue::List(proxies)));
    entries.push((text_node("benchmark-url"), text_node("http://www.gstatic.com/generate_204")));
    entries.push((text_node("benchmark-timeout"), YamlValue::Int(5)));
    YamlValue::Mapping(entries)
}

/// Whether a node list is exactly the chain names of these proxies, in
/// order.
pub open spec fn spec_chain_names_list(
    ps: Seq<YamlValue>,
    existing: Seq<String>,
    suffix: Seq<char>,
) -> bool {
    ps.len() == existing.len() && forall|i: int|
        0 <= i < existing.len() ==> spec_is_text(#[trigger] ps[i], existing[i]@ + suffix)
}

fn build_chain_names(existing: &Vec<String>, c: &MergerConfig) -> (r: Vec<YamlValue>)
    ensures
        spec_chain_names_list(r@, existing@, c.chain_suffix@),
{
    let mut out: Vec<YamlValue> = Vec::new();
    let mut i: usize = 0;
    while i < existing.len()
        invariant
            i <= existing@.len(),
            out@.len() == i,
            forall|j: int|
                0 <= j < i ==> spec_is_text(#[trigger] out@[j], existing@[j]@ + c.chain_suffix@),
        decreases existing@.len() - i,
    {
        let p: &String = &existing[i];
        out.push(YamlValue::Str(chain_suffix_name(p, &c.chain_suffix)));
        i = i + 1;
    }
    out
}

/// How the automatic chain group looks: named `Chain-Auto`, of type
/// `url-test` over every chain group, probing the no-content endpoint
/// every 300 seconds with a 50 ms tolerance.
pub open spec fn spec_merger_auto(v: YamlValue, existing: Seq<String>, c: MergerConfig) -> bool {
    match v {
        YamlValue::Mapping(es) => {
            &&& es@.len() == 6
            &&& spec_is_text(es@[0].0, "name"@) && spec_is_text(es@[0].1, "Chain-Auto"@)
            &&& spec_is_text(es@[1].0, "type"@) && spec_is_text(es@[1].1, "url-test"@)
            &&& spec_is_text(es@[2].0, "proxies"@) && (match es@[2].1 {
                YamlValue::List(ps) => spec_chain_names_list(ps@, existing, c.chain_suffix@),
                _ => false,
            })
            &&& spec_is_text(es@[3].0, "url"@) && spec_is_text(
                es@[3].1,
                "http://www.gstatic.com/generate_204"@,
            )
            &&& spec_is_text(es@[4].0, "interval"@) && es@[4].1 == YamlValue::Int(300)
            &&& spec_is_text(es@[5].0, "tolerance"@) && es@[5].1 == YamlValue::Int(50)
        },
        _ => false,
    }
}

fn build_merger_auto(existing: &Vec<String>, c: &MergerConfig) -> (r: YamlValue)
    ensures
        spec_merger_auto(r, existing@, *c),
{
    let names = build_chain_names(existing, c);
    let mut entries: Vec<(YamlValue, YamlValue)> = Vec::new();
    entries.push((text_node("name"), text_node("Chain-Auto")));
    entries.push((text_node("type"), text_node("url-test")));
    entries.push((text_node("proxies"), YamlValue::List(names)));
    entries.push((text_node("url"), text_node("http://www.gstatic.com/generate_204")));
    entries.push((text_node("interval"), YamlValue::Int(300)));
    entries.push((text_node("tolerance"), YamlValue::Int(50)));
    YamlValue::Mapping(entries)
}

/// How the manual chain group looks: named `Chain-Selector`, of type
/// `select` over every chain group.
pub open spec fn spec_merger_selector(v: YamlValue, existing: Seq<String>, c: MergerConfig) -> bool {
    match v {
        YamlValue::Mapping(es) => {
            &&& es@.len() == 3
            &&& spec_is_text(es@[0].0, "name"@) && spec_is_text(es@[0].1, "Chain-Selector"@)
            &&& spec_is_text(es@[1].0, "type"@) && spec_is_text(es@[1].1, "select"@)
            &&& spec_is_text(es@[2].0, "proxies"@) && (match es@[2].1 {
                YamlValue::List(ps) => spec_chain_names_list(ps@, existing, c.chain_suffix@),
                _ => false,
            })
        },
        _ => false,
    }
}

fn build_merger_selector(existing: &Vec<String>, c: &MergerConfig) -> (r: YamlValue)
    ensures
        spec_merger_selector(r, existing@, *c),
{
    let names = build_chain_names(existing, c);
    let mut entries: Vec<(YamlValue, YamlValue)> = Vec::new();
    entries.push((text_node("name"), text_node("Chain-Selector")));
    entries.push((text_node("type"), text_node("select")));
    entries.push((text_node("proxies"), YamlValue::List(names)));
    YamlValue::Mapping(entries)
}

/// The proxies whose chain group does not exist yet: those whose chain
/// name is not among the group names.
pub open spec fn spec_missing_chains(
    existing: Seq<String>,
    group_names: Seq<String>,
    suffix: Seq<char>,
) -> Seq<String> {
    existing.filter(|p: String| !spec_has_proxy_name(group_names, p@ + suffix))
}

fn missing_chains(existing: &Vec<String>, group_names: &Vec<String>, c: &MergerConfig) -> (r: Vec<
    String,
>)
    ensures
        r@ == spec_missing_chains(existing@, group_names@, c.chain_suffix@),
{
    let ghost pred = |p: String| !spec_has_proxy_name(group_names@, p@ + c.chain_suffix@);
    let mut out: Vec<String> = Vec::new();
    let mut i: usize = 0;
    proof {
        reveal(Seq::filter);
        assert(existing@.take(0) =~= Seq::<String>::empty());
        assert(Seq::<String>::empty().filter(pred) =~= Seq::<String>::empty());
    }
    while i < existing.len()
        invariant
            i <= existing@.len(),
            pred == (|p: String| !spec_has_proxy_name(group_names@, p@ + c.chain_suffix@)),
            out@ == existing@.take(i as int).filter(pred),
        decreases existing@.len() - i,
    {
        let p: &String = &existing[i];
        let chain = chain_suffix_name(p, &c.chain_suffix);
        proof {
            reveal(Seq::filter);
            assert(existing@.take(i + 1).drop_last() =~= existing@.take(i as int));
            assert(existing@.take(i + 1).last() == existing@[i as int]);
            assert(pred(existing@[i as int]) == !spec_has_proxy_name(
                group_names@,
                existing@[i as int]@ + c.chain_suffix@,
            ));
            if pred(existing@[i as int]) {
                assert(existing@.take(i + 1).filter(pred) =~= existing@.take(i as int).filter(
                    pred,
                ).push(existing@[i as int]));
            } else {
                assert(existing@.take(i + 1).filter(pred) =~= existing@.take(i as int).filter(
                    pred,
                ));
            }
        }
        if !contains_string(group_names, &chain) {
            out.push(p.clone());
        }
        i = i + 1;
    }
    proof {
        assert(existing@.take(existing@.len() as int) =~= existing@);
    }
    out
}

/// Whether a group carries one of the merger's own summary names.
pub open spec fn spec_auto_or_selector_named(g: YamlValue) -> bool {
    match spec_name_of(g) {
        Some(n) => n@ == "Chain-Auto"@ || n@ == "Chain-Selector"@,
        None => false,
    }
}

fn drop_auto_selector(groups: Vec<YamlValue>) -> (r: Vec<YamlValue>)
    ensures
        r@ == groups@.filter(|g: YamlValue| !spec_auto_or_selector_named(g)),
{
    let ghost before = groups@;
    let ghost pred = |g: YamlValue| !spec_auto_or_selector_named(g);
    let mut groups = groups;
    let total: usize = groups.len();
    let auto_name: String = String::from_str("Chain-Auto");
    let selector_name: String = String::from_str("Chain-Selector");
    let mut out: Vec<YamlValue> = Vec::new();
    let mut i: usize = 0;
    proof {
        reveal(Seq::filter);
        assert(before.take(0) =~= Seq::<YamlValue>::empty());
        assert(Seq::<YamlValue>::empty().filter(pred) =~= Seq::<YamlValue>::empty());
    }
    while groups.len() > 0
        invariant
            total == before.len(),
            i + groups@.len() == total,
            groups@ == before.skip(i as int),
            auto_name@ == "Chain-Auto"@,
            selector_name@ == "Chain-Selector"@,
            pred == (|g: YamlValue| !spec_auto_or_selector_named(g)),
            out@ == before.take(i as int).filter(pred),
        decreases groups@.len(),
    {
        let g = groups.remove(0);
        let skip_it = match name_of(&g) {
            Some(n) => n == auto_name || n == selector_name,
            None => false,
        };
        proof {
            reveal(Seq::filter);
            assert(before.skip(i as int)[0] == before[i as int]);
            assert(before.skip(i as int).skip(1) =~= before.skip(i as int + 1));
            assert(before.take(i + 1).drop_last() =~= before.take(i as int));
            assert(before.take(i + 1).last() == before[i as int]);
            assert(pred(before[i as int]) == !spec_auto_or_selector_named(before[i as int]));
            if pred(before[i as int]) {
                assert(before.take(i + 1).filter(pred) =~= before.take(i as int).filter(
                    pred,
                ).push(before[i as int]));
            } else {
                assert(before.take(i + 1).filter(pred) =~= before.take(i as int).filter(pred));
            }
        }
        if !skip_it {
            out.push(g);
        }
        i = i + 1;
    }
    proof {
        assert(before.take(before.len() as int) =~= before);
    }
    out
}

/// Create the relay chain groups: one per proxy whose chain does not
/// exist yet, appended after the kept groups, with the summary groups
/// `Chain-Selector` and `Chain-Auto` rebuilt at the front whenever any
/// proxy exists. The count of created chains is returned.
fn create_chain_proxies(groups: Vec<YamlValue>, existing: &Vec<String>, c: &MergerConfig) -> (r: (
    Vec<YamlValue>,
    usize,
))
    ensures
        ({
            let group_names = spec_proxy_names(groups@);
            let missing = spec_missing_chains(existing@, group_names, c.chain_suffix@);
            &&& r.1 == missing.len()
            &&& (existing@.len() == 0 ==> r.0@ == groups@)
            &&& (existing@.len() > 0 ==> {
                let kept = groups@.filter(|g: YamlValue| !spec_auto_or_selector_named(g));
                &&& r.0@.len() == 2 + kept.len() + missing.len()
                &&& spec_merger_selector(r.0@[0], existing@, *c)
                &&& spec_merger_auto(r.0@[1], existing@, *c)
                &&& r.0@.subrange(2, 2 + kept.len() as int) == kept
                &&& (forall|i: int|
                    0 <= i < missing.len() ==> spec_merger_relay(
                        #[trigger] r.0@[2 + kept.len() + i],
                        missing[i]@,
                        *c,
                    ))
            })
        }),
{
    let group_names = collect_names(&groups);
    let missing = missing_chains(existing, &group_names, c);
    let mut relays: Vec<YamlValue> = Vec::new();
    let mut i: usize = 0;
    while i < missing.len()
        invariant
            i <= missing@.len(),
            relays@.len() == i,
            forall|j: int|
                0 <= j < i ==> spec_merger_relay(#[trigger] relays@[j], missing@[j]@, *c),
        decreases missing@.len() - i,
    {
        let p: &String = &missing[i];
        relays.push(build_merger_relay(p, c));
        i = i + 1;
    }
    let created = missing.len();
    if existing.len() == 0 {
        proof {
            reveal(Seq::filter);
            assert(spec_missing_chains(
                existing@,
                spec_proxy_names(groups@),
                c.chain_suffix@,
            ) =~= Seq::<String>::empty());
        }
        return (groups, created);
    }
    let ghost groups_before = groups@;
    let kept = drop_auto_selector(groups);
    let ghost kept_seq = kept@;
    let ghost relays_seq = relays@;
    let mut head: Vec<YamlValue> = Vec::new();
    head.push(build_merger_selector(existing, c));
    head.push(build_merger_auto(existing, c));
    let ghost head_seq = head@;
    let with_kept = append_nodes(head, kept);
    let out = append_nodes(with_kept, relays);
    proof {
        assert(out@[0] == head_seq[0]);
        assert(out@[1] == head_seq[1]);
        assert(out@.subrange(2, 2 + kept_seq.len() as int) =~= kept_seq);
        assert forall|j: int| 0 <= j < relays_seq.len() implies spec_merger_relay(
            #[trigger] out@[2 + kept_seq.len() + j],
            spec_missing_chains(
                existing@,
                spec_proxy_names(groups_before),
                c.chain_suffix@,
            )[j]@,
            *c,
        ) by {
            assert(out@[2 + kept_seq.len() + j] == relays_seq[j]);
        }
    }
    (out, created)
}


/// Whether some node in the list is the string `s`.
fn has_text(items: &Vec<YamlValue>, target: &String) -> (r: bool)
    ensures
        r == (exists|i: int| 0 <= i < items@.len() && spec_is_text(#[trigger] items@[i], target@)),
{
    let mut i: usize = 0;
    while i < items.len()
        invariant
            i <= items@.len(),
            forall|j: int| 0 <= j < i ==> !spec_is_text(#[trigger] items@[j], target@),
        decreases items@.len() - i,
    {
        let hit = match &items[i] {
            YamlValue::Str(s) => *s == *target,
            _ => false,
        };
        if hit {
            proof {
                assert(spec_is_text(items@[i as int], target@));
            }
            return true;
        }
        proof {
            assert(!spec_is_text(items@[i as int], target@));
        }
        i = i + 1;
    }
    false
}

/// Whether a group is of type `select`.
pub open spec fn spec_is_select_group(g: YamlValue) -> bool {
    match g.spec_get("type"@) {
        Some(v) => spec_is_text(v, "select"@),
        None => false,
    }
}

/// Whether a group carries a `proxies` list.
pub open spec fn spec_has_proxies_list(g: YamlValue) -> bool {
    match g.spec_get("proxies"@) {
        Some(v) => v is List,
        None => false,
    }
}

/// Whether a group qualifies as the main entry group under this name: it
/// carries the name, is of type `select`, and has a `proxies` list.
pub open spec fn spec_group_matches_main(g: YamlValue, name: Seq<char>) -> bool {
    &&& (spec_name_of(g) matches Some(n) && n@ == name)
    &&& spec_is_select_group(g)
    &&& spec_has_proxies_list(g)
}

/// First group qualifying as the main entry group under this name.
pub open spec fn spec_selector_target(groups: Seq<YamlValue>, name: Seq<char>) -> Option<int>
    decreases groups.len(),
{
    if groups.len() == 0 {
        None
    } else if spec_group_matches_main(groups[0], name) {
        Some(0int)
    } else {
        match spec_selector_target(groups.skip(1), name) {
            Some(i) => Some(i + 1),
            None => None,
        }
    }
}

proof fn lemma_selector_target_characterization(groups: Seq<YamlValue>, name: Seq<char>)
    ensures
        match spec_selector_target(groups, name) {
            Some(i) => 0 <= i < groups.len() && spec_group_matches_main(groups[i], name),
            None => true,
        },
    decreases groups.len(),
{
    if groups.len() > 0 && !spec_group_matches_main(groups[0], name) {
        lemma_selector_target_characterization(groups.skip(1), name);
        match spec_selector_target(groups.skip(1), name) {
            Some(i) => {
                assert(groups.skip(1)[i] == groups[i + 1]);
            },
            None => {},
        }
    }
}

/// Whether a group's `proxies` list already carries both chain entries.
pub open spec fn spec_group_has_chain_entries(g: YamlValue) -> bool {
    match g.spec_get("proxies"@) {
        Some(v) => match v {
            YamlValue::List(ps) => (exists|i: int|
                0 <= i < ps@.len() && spec_is_text(#[trigger] ps@[i], "Chain-Selector"@)) && (
            exists|i: int|
                0 <= i < ps@.len() && spec_is_text(#[trigger] ps@[i], "Chain-Auto"@)),
            _ => false,
        },
        None => false,
    }
}

/// How the main group looks after the chain entries are added: its
/// `proxies` list carries the old entries with `Chain-Selector` and
/// `Chain-Auto` prepended as needed (at most two new entries, each one of
/// those two names), and every other key keeps its value.
pub open spec fn spec_chain_entries_added(old_g: YamlValue, new_g: YamlValue) -> bool {
    match (old_g, new_g) {
        (YamlValue::Mapping(oes), YamlValue::Mapping(nes)) => {
            &&& match (spec_entries_get(oes@, "proxies"@), spec_entries_get(nes@, "proxies"@)) {
                (Some(ov), Some(nv)) => match (ov, nv) {
                    (YamlValue::List(op), YamlValue::List(np)) => {
                        &&& np@.len() > op@.len()
                        &&& np@.len() <= op@.len() + 2
                        &&& np@.skip(np@.len() - op@.len()) == op@
                        &&& (forall|i: int|
                            0 <= i < np@.len() - op@.len() ==> spec_is_text(
                                #[trigger] np@[i],
                                "Chain-Selector"@,
                            ) || spec_is_text(np@[i], "Chain-Auto"@))
                    },
                    _ => false,
                },
                _ => false,
            }
            &&& (forall|k: Seq<char>|
                k != "proxies"@ ==> #[trigger] spec_entries_get(nes@, k) == spec_entries_get(
                    oes@,
                    k,
                ))
        },
        _ => false,
    }
}

/// Add `Chain-Selector` and `Chain-Auto` to the front of the main entry
/// group's proxies: exactly when a main group name was detected, the
/// first `select` group of that name with a `proxies` list exists, and it
/// lacks either entry, that one group changes — only by the prepended
/// entries — and one update is counted. In every other case the groups
/// are returned untouched.
fn add_selector_to_main_group(groups: Vec<YamlValue>, main: &Option<String>) -> (r: (
    Vec<YamlValue>,
    usize,
))
    ensures
        r.1 <= 1,
        r.0@.len() == groups@.len(),
        ({
            match main {
                Some(name) => match spec_selector_target(groups@, name@) {
                    Some(j) => if spec_group_has_chain_entries(groups@[j]) {
                        r.1 == 0 && r.0@ == groups@
                    } else {
                        r.1 == 1 && (forall|k: int|
                            0 <= k < groups@.len() && k != j ==> r.0@[k] == groups@[k])
                            && spec_chain_entries_added(groups@[j], r.0@[j])
                            && spec_is_select_group(groups@[j])
                    },
                    None => r.1 == 0 && r.0@ == groups@,
                },
                None => r.1 == 0 && r.0@ == groups@,
            }
        }),
{
    let main_name: &String = match main {
        Some(n) => n,
        None => {
            return (groups, 0);
        },
    };
    let ghost before = groups@;
    let selector_name: String = String::from_str("Chain-Selector");
    let auto_name: String = String::from_str("Chain-Auto");
    let found: usize = match find_main_index(&groups, main_name) {
        Some(j) => j,
        None => {
            return (groups, 0);
        },
    };
    let (has_selector, has_auto) = {
        let g: &YamlValue = &groups[found];
        let ps: &Vec<YamlValue> = match g.get("proxies") {
            Some(v) => match v {
                YamlValue::List(ps) => ps,
                _ => {
                    proof {
                        assert(false);
                    }
                    return (groups, 0);
                },
            },
            None => {
                proof {
                    assert(false);
                }
                return (groups, 0);
            },
        };
        (has_text(ps, &selector_name), has_text(ps, &auto_name))
    };
    proof {
        assert((has_selector && has_auto) == spec_group_has_chain_entries(
            before[found as int],
        ));
    }
    if has_selector && has_auto {
        return (groups, 0);
    }
    let mut groups = groups;
    let group = groups.remove(found);
    let entries = match group {
        YamlValue::Mapping(es) => es,
        _ => {
            proof {
                assert(false);
            }
            return (groups, 0);
        },
    };
    let ghost old_entries = entries@;
    let (rest, proxies_entry) = remove_entry(entries, "proxies");
    let (pk, pv) = match proxies_entry {
        Some(kv) => kv,
        None => {
            proof {
                assert(false);
            }
            return (groups, 0);
        },
    };
    let old_list = match pv {
        YamlValue::List(ps) => ps,
        _ => {
            proof {
                assert(false);
            }
            return (groups, 0);
        },
    };
    let ghost old_list_seq = old_list@;
    let mut new_list: Vec<YamlValue> = Vec::new();
    if !has_selector {
        new_list.push(text_node("Chain-Selector"));
    }
    if !has_auto {
        new_list.push(text_node("Chain-Auto"));
    }
    let ghost prepended = new_list@;
    let new_list = append_nodes(new_list, old_list);
    let mut entries2: Vec<(YamlValue, YamlValue)> = Vec::new();
    entries2.push((pk, YamlValue::List(new_list)));
    let ghost head_seq = entries2@;
    let new_entries = append_entries(entries2, rest);
    let new_group = YamlValue::Mapping(new_entries);
    proof {
        reveal_strlit("proxies");
        let nes = new_entries@;
        assert(nes[0] == head_seq[0]);
        assert(spec_is_text(pk, "proxies"@));
        assert(spec_entries_get(nes, "proxies"@) == Some(nes[0].1));
        assert forall|k: Seq<char>| k != "proxies"@ implies #[trigger] spec_entries_get(nes, k)
            == spec_entries_get(old_entries, k) by {
            assert(!spec_is_text(nes[0].0, k));
            assert(nes.skip(1) =~= rest@);
            assert(spec_entries_get(nes, k) == spec_entries_get(rest@, k));
            lemma_entries_remove_get_other(old_entries, "proxies"@, k);
        }
        let np = new_list@;
        assert(np.skip(np.len() - old_list_seq.len()) =~= old_list_seq);
        assert forall|i: int| 0 <= i < np.len() - old_list_seq.len() implies spec_is_text(
            #[trigger] np[i],
            "Chain-Selector"@,
        ) || spec_is_text(np[i], "Chain-Auto"@) by {
            assert(np[i] == prepended[i]);
        }
    }
    groups.insert(found, new_group);
    let result: (Vec<YamlValue>, usize) = (groups, 1);
    proof {
        let jj = found as int;
        assert(result.0@ =~= before.update(jj, result.0@[jj]));
        assert(spec_chain_entries_added(before[jj], result.0@[jj]));
        assert forall|k: int|
            0 <= k < before.len() && k != jj implies result.0@[k] == before[k] by {}
    }
    result
}


/// First group named `main_name` that is of type `select` and carries a
/// `proxies` list, per [`spec_selector_target`].
fn find_main_index(groups: &Vec<YamlValue>, main_name: &String) -> (r: Option<usize>)
    ensures
        match r {
            Some(j) => spec_selector_target(groups@, main_name@) == Some(j as int) && j
                < groups@.len() && spec_group_matches_main(groups@[j as int], main_name@),
            None => spec_selector_target(groups@, main_name@) is None,
        },
{
    proof {
        lemma_selector_target_characterization(groups@, main_name@);
    }
    let select_text: String = String::from_str("select");
    let mut j: usize = 0;
    proof {
        assert(groups@.skip(0) =~= groups@);
    }
    while j < groups.len()
        invariant
            j <= groups@.len(),
            select_text@ == "select"@,
            spec_selector_target(groups@, main_name@) == (match spec_selector_target(
                groups@.skip(j as int),
                main_name@,
            ) {
                Some(k) => Some(k + j),
                None => None,
            }),
        decreases groups@.len() - j,
    {
        proof {
            assert(groups@.skip(j as int)[0] == groups@[j as int]);
            assert(groups@.skip(j as int).skip(1) =~= groups@.skip(j as int + 1));
        }
        let g: &YamlValue = &groups[j];
        let name_ok = match name_of(g) {
            Some(n) => n == *main_name,
            None => false,
        };
        let type_ok = match g.get("type") {
            Some(v) => match v.as_text() {
                Some(t) => *t == select_text,
                None => false,
            },
            None => false,
        };
        let proxies_ok = match g.get("proxies") {
            Some(v) => matches!(v, YamlValue::List(_)),
            None => false,
        };
        proof {
            assert((name_ok && type_ok && proxies_ok) == spec_group_matches_main(
                groups@[j as int],
                main_name@,
            ));
        }
        if name_ok && type_ok && proxies_ok {
            proof {
                lemma_selector_target_characterization(groups@, main_name@);
            }
            return Some(j);
        }
        j = j + 1;
    }
    None
}


/// The proxies a merge creates chains for: every named node except the
/// local proxy itself and nodes whose name already ends in the chain
/// suffix.
pub open spec fn spec_existing_proxies(items: Seq<YamlValue>, c: MergerConfig) -> Seq<String> {
    spec_proxy_names(items).filter(
        |n: String| n@ != c.proxy_name@ && !spec_ends_with(n@, c.chain_suffix@),
    )
}

fn existing_proxies(items: &Vec<YamlValue>, c: &MergerConfig) -> (r: Vec<String>)
    ensures
        r@ == spec_existing_proxies(items@, *c),
{
    let names = collect_names(items);
    let ghost pred = |n: String| n@ != c.proxy_name@ && !spec_ends_with(n@, c.chain_suffix@);
    let suffix_chars = to_chars(c.chain_suffix.as_str());
    let mut out: Vec<String> = Vec::new();
    let mut i: usize = 0;
    proof {
        reveal(Seq::filter);
        assert(names@.take(0) =~= Seq::<String>::empty());
        assert(Seq::<String>::empty().filter(pred) =~= Seq::<String>::empty());
    }
    while i < names.len()
        invariant
            i <= names@.len(),
            names@ == spec_proxy_names(items@),
            suffix_chars@ == c.chain_suffix@,
            pred == (|n: String| n@ != c.proxy_name@ && !spec_ends_with(n@, c.chain_suffix@)),
            out@ == names@.take(i as int).filter(pred),
        decreases names@.len() - i,
    {
        let n: &String = &names[i];
        let n_chars = to_chars(n.as_str());
        let keep = !(*n == c.proxy_name) && !ends_with_chars(&n_chars, &suffix_chars);
        proof {
            reveal(Seq::filter);
            assert(names@.take(i + 1).drop_last() =~= names@.take(i as int));
            assert(names@.take(i + 1).last() == names@[i as int]);
            assert(pred(names@[i as int]) == (names@[i as int]@ != c.proxy_name@
                && !spec_ends_with(names@[i as int]@, c.chain_suffix@)));
            if pred(names@[i as int]) {
                assert(names@.take(i + 1).filter(pred) =~= names@.take(i as int).filter(
                    pred,
                ).push(names@[i as int]));
            } else {
                assert(names@.take(i + 1).filter(pred) =~= names@.take(i as int).filter(pred));
            }
        }
        if keep {
            out.push(n.clone());
        }
        i = i + 1;
    }
    proof {
        assert(names@.take(names@.len() as int) =~= names@);
    }
    out
}

/// The group a `MATCH` rule routes to, when the rule is a string of the
/// form `MATCH,<group>` and the group (trimmed) is neither `DIRECT` nor
/// `REJECT`.
pub open spec fn spec_rule_main(rule: YamlValue) -> Option<Seq<char>> {
    match rule {
        YamlValue::Str(s) => if spec_starts_with(s@, "MATCH,"@) {
            let parts = crate::strutil::spec_split(s@, ',');
            if parts.len() >= 2 {
                let g = crate::strutil::spec_trim(parts[1]);
                if g != "DIRECT"@ && g != "REJECT"@ {
                    Some(g)
                } else {
                    None
                }
            } else {
                None
            }
        } else {
            None
        },
        _ => None,
    }
}

/// The first rule that names a main group.
pub open spec fn spec_first_rule_main(rules: Seq<YamlValue>) -> Option<Seq<char>>
    decreases rules.len(),
{
    if rules.len() == 0 {
        None
    } else {
        match spec_rule_main(rules[0]) {
            Some(g) => Some(g),
            None => spec_first_rule_main(rules.skip(1)),
        }
    }
}

/// The fallback choice a group offers: its name, when it is a `select`
/// group not named like one of the chain groups.
pub open spec fn spec_fallback_group(g: YamlValue) -> Option<Seq<char>> {
    if spec_is_select_group(g) {
        match spec_name_of(g) {
            Some(n) => if !spec_starts_with(n@, "Chain-"@) && !spec_ends_with(n@, "-Chain"@) {
                Some(n@)
            } else {
                None
            },
            None => None,
        }
    } else {
        None
    }
}

/// The first group offering a fallback choice.
pub open spec fn spec_first_fallback(groups: Seq<YamlValue>) -> Option<Seq<char>>
    decreases groups.len(),
{
    if groups.len() == 0 {
        None
    } else {
        match spec_fallback_group(groups[0]) {
            Some(g) => Some(g),
            None => spec_first_fallback(groups.skip(1)),
        }
    }
}

/// The main entry group a merge offers the chain entries in: what the
/// first qualifying `MATCH` rule of the `rules` value routes to, else the
/// first qualifying `select` group.
pub open spec fn spec_detect_main(
    rules_val: Option<YamlValue>,
    groups: Seq<YamlValue>,
) -> Option<Seq<char>> {
    let from_rules = match rules_val {
        Some(v) => match v {
            YamlValue::List(rs) => spec_first_rule_main(rs@),
            _ => None,
        },
        None => None,
    };
    match from_rules {
        Some(g) => Some(g),
        None => spec_first_fallback(groups),
    }
}

/// Pick the main entry group, per [`spec_detect_main`]: `rest` holds the
/// document's entries apart from `proxies`/`proxy-groups` (so its `rules`
/// section), `groups` the original group list.
fn detect_main_group(
    rest: &Vec<(YamlValue, YamlValue)>,
    groups: &Vec<YamlValue>,
) -> (r: Option<String>)
    ensures
        match r {
            Some(n) => spec_detect_main(spec_entries_get(rest@, "rules"@), groups@) == Some(n@),
            None => spec_detect_main(spec_entries_get(rest@, "rules"@), groups@) is None,
        },
{
    let match_prefix = to_chars("MATCH,");
    let direct: String = String::from_str("DIRECT");
    let reject: String = String::from_str("REJECT");
    match entries_get(rest, "rules") {
        Some(v) => match v {
            YamlValue::List(rules) => {
                let mut i: usize = 0;
                proof {
                    assert(rules@.skip(0) =~= rules@);
                }
                while i < rules.len()
                    invariant
                        i <= rules@.len(),
                        match_prefix@ == "MATCH,"@,
                        direct@ == "DIRECT"@,
                        reject@ == "REJECT"@,
                        spec_entries_get(rest@, "rules"@) == Some(YamlValue::List(*rules)),
                        spec_first_rule_main(rules@) == spec_first_rule_main(
                            rules@.skip(i as int),
                        ),
                    decreases rules@.len() - i,
                {
                    proof {
                        assert(rules@.skip(i as int)[0] == rules@[i as int]);
                        assert(rules@.skip(i as int).skip(1) =~= rules@.skip(i as int + 1));
                    }
                    match &rules[i] {
                        YamlValue::Str(rule) => {
                            let rule_chars = to_chars(rule.as_str());
                            if starts_with_chars(&rule_chars, &match_prefix) {
                                let parts = split_char(&rule_chars, ',');
                                if parts.len() >= 2 {
                                    let part: &Vec<char> = &parts[1];
                                    proof {
                                        assert(parts.deep_view()[1] == parts@[1]@);
                                    }
                                    let group = chars_to_string(&trim_chars(part));
                                    if !(group == direct) && !(group == reject) {
                                        proof {
                                            assert(spec_rule_main(rules@[i as int]) == Some(
                                                group@,
                                            ));
                                        }
                                        return Some(group);
                                    }
                                }
                            }
                        },
                        _ => {},
                    }
                    proof {
                        assert(spec_rule_main(rules@[i as int]) is None);
                    }
                    i = i + 1;
                }
            },
            _ => {},
        },
        None => {},
    }
    let select_text: String = String::from_str("select");
    let chain_prefix = to_chars("Chain-");
    let chain_suffix = to_chars("-Chain");
    let mut i: usize = 0;
    proof {
        assert(groups@.skip(0) =~= groups@);
    }
    while i < groups.len()
        invariant
            i <= groups@.len(),
            select_text@ == "select"@,
            chain_prefix@ == "Chain-"@,
            chain_suffix@ == "-Chain"@,
            spec_entries_get(rest@, "rules"@) == spec_entries_get(rest@, "rules"@),
            (match spec_entries_get(rest@, "rules"@) {
                Some(v) => match v {
                    YamlValue::List(rs) => spec_first_rule_main(rs@) is None,
                    _ => true,
                },
                None => true,
            }),
            spec_first_fallback(groups@) == spec_first_fallback(groups@.skip(i as int)),
        decreases groups@.len() - i,
    {
        proof {
            assert(groups@.skip(i as int)[0] == groups@[i as int]);
            assert(groups@.skip(i as int).skip(1) =~= groups@.skip(i as int + 1));
        }
        let g: &YamlValue = &groups[i];
        let is_select = match g.get("type") {
            Some(v) => match v.as_text() {
                Some(t) => *t == select_text,
                None => false,
            },
            None => false,
        };
        if is_select {
            match name_of(g) {
                Some(n) => {
                    let n_chars = to_chars(n.as_str());
                    if !starts_with_chars(&n_chars, &chain_prefix) && !ends_with_chars(
                        &n_chars,
                        &chain_suffix,
                    ) {
                        proof {
                            assert(spec_fallback_group(groups@[i as int]) == Some(n@));
                        }
                        return Some(n);
                    }
                },
                None => {},
            }
        }
        proof {
            assert(spec_fallback_group(groups@[i as int]) is None);
        }
        i = i + 1;
    }
    None
}

/// A relay chain group is never of type `select`.
proof fn lemma_relay_not_select(g: YamlValue, p: Seq<char>, c: MergerConfig)
    requires
        spec_merger_relay(g, p, c),
    ensures
        !spec_is_select_group(g),
{
    reveal_strlit("name");
    reveal_strlit("type");
    reveal_strlit("select");
    reveal_strlit("relay");
    assert("name"@[0] == 'n');
    assert("type"@[0] == 't');
    assert("select"@.len() == 6);
    assert("relay"@.len() == 5);
    match g {
        YamlValue::Mapping(es) => {
            assert(!spec_is_text(es@[0].0, "type"@));
            assert(es@.skip(1)[0] == es@[1]);
            assert(spec_entries_get(es@, "type"@) == spec_entries_get(es@.skip(1), "type"@));
            assert(spec_entries_get(es@.skip(1), "type"@) == Some(es@[1].1));
        },
        _ => {},
    }
}

/// The automatic chain group is never of type `select`.
proof fn lemma_auto_not_select(g: YamlValue, existing: Seq<String>, c: MergerConfig)
    requires
        spec_merger_auto(g, existing, c),
    ensures
        !spec_is_select_group(g),
{
    reveal_strlit("name");
    reveal_strlit("type");
    reveal_strlit("select");
    reveal_strlit("url-test");
    assert("name"@[0] == 'n');
    assert("type"@[0] == 't');
    assert("select"@.len() == 6);
    assert("url-test"@.len() == 8);
    match g {
        YamlValue::Mapping(es) => {
            assert(!spec_is_text(es@[0].0, "type"@));
            assert(es@.skip(1)[0] == es@[1]);
            assert(spec_entries_get(es@, "type"@) == spec_entries_get(es@.skip(1), "type"@));
            assert(spec_entries_get(es@.skip(1), "type"@) == Some(es@[1].1));
        },
        _ => {},
    }
}

/// Whether a document can be merged: its root is a mapping and its
/// `proxies` and `proxy-groups` sections, where present, are sequences.
pub open spec fn spec_mergeable(doc: YamlValue) -> bool {
    &&& doc is Mapping
    &&& (match doc.spec_get("proxies"@) {
        Some(v) => v is List,
        None => true,
    })
    &&& (match doc.spec_get("proxy-groups"@) {
        Some(v) => v is List,
        None => true,
    })
}

/// The proxies a document's merge creates chains for.
pub open spec fn spec_doc_existing_proxies(doc: YamlValue, c: MergerConfig) -> Seq<String> {
    match doc.spec_get("proxies"@) {
        Some(v) => match v {
            YamlValue::List(items) => spec_existing_proxies(items@, c),
            _ => Seq::empty(),
        },
        None => Seq::empty(),
    }
}

/// A document's `proxy-groups` list; nothing when missing or not a list.
pub open spec fn spec_doc_groups(doc: YamlValue) -> Seq<YamlValue> {
    match doc.spec_get("proxy-groups"@) {
        Some(v) => match v {
            YamlValue::List(gs) => gs@,
            _ => Seq::empty(),
        },
        None => Seq::empty(),
    }
}

/// The group names of a document's `proxy-groups` list; nothing when the
/// list is missing or not a list.
pub open spec fn spec_doc_group_names(doc: YamlValue) -> Seq<String> {
    match doc.spec_get("proxy-groups"@) {
        Some(v) => match v {
            YamlValue::List(gs) => spec_proxy_names(gs@),
            _ => Seq::empty(),
        },
        None => Seq::empty(),
    }
}

impl ClashConfigMerger {
    /// Merge the local proxy into a parsed Clash document: add or update
    /// the local proxy node, create a relay chain group for each proxy
    /// that lacks one, rebuild the `Chain-Selector` and `Chain-Auto`
    /// summary groups, and offer them in the detected main entry group.
    /// It succeeds exactly on mergeable documents; on success the output
    /// carries the local node in its `proxies` list, one relay chain
    /// group per counted chain, the automatic chain group whenever any
    /// proxy exists, and every other key's value unchanged.
    pub fn merge_document(&self, doc: YamlValue) -> (r: Result<(YamlValue, MergeResult), String>)
        ensures
            (r is Ok) == spec_mergeable(doc),
            ({
                let c = self.spec_config();
                match r {
                    Ok(p) => {
                        let existing = spec_doc_existing_proxies(doc, c);
                        let missing = spec_missing_chains(
                            existing,
                            spec_doc_group_names(doc),
                            c.chain_suffix@,
                        );
                        &&& (match doc.spec_get("proxies"@) {
                            Some(v) => match v {
                                YamlValue::List(items) => p.1.proxy_added == (spec_find_named(
                                    items@,
                                    c.proxy_name@,
                                ) is None),
                                _ => false,
                            },
                            None => p.1.proxy_added,
                        })
                        &&& p.1.chains_created == missing.len()
                        &&& p.1.groups_updated <= 1
                        &&& (p.1.groups_updated == 1 ==> spec_detect_main(
                            doc.spec_get("rules"@),
                            spec_doc_groups(doc),
                        ) is Some)
                        &&& p.1.backup_path is None
                        &&& p.1.warnings@.len() == 0
                        &&& p.0 is Mapping
                        &&& (match p.0.spec_get("proxies"@) {
                            Some(v) => (v matches YamlValue::List(new_items) && spec_has_named(
                                new_items@,
                                c.proxy_name@,
                            )),
                            None => false,
                        })
                        &&& (match p.0.spec_get("proxy-groups"@) {
                            Some(v) => match v {
                                YamlValue::List(gs) => {
                                    &&& (forall|i: int|
                                        0 <= i < missing.len() ==> (exists|g: int|
                                            0 <= g < gs@.len() && spec_merger_relay(
                                                #[trigger] gs@[g],
                                                #[trigger] missing[i]@,
                                                c,
                                            )))
                                    &&& (existing.len() > 0 ==> (exists|g: int|
                                        0 <= g < gs@.len() && spec_merger_auto(
                                            #[trigger] gs@[g],
                                            existing,
                                            c,
                                        )))
                                },
                                _ => false,
                            },
                            None => false,
                        })
                        &&& (forall|k: Seq<char>|
                            k != "proxies"@ && k != "proxy-groups"@
                                ==> #[trigger] p.0.spec_get(k) == doc.spec_get(k))
                    },
                    Err(e) => e@.len() > 0,
                }
            }),
    {
        let ghost doc_ghost = doc;
        let entries = match doc {
            YamlValue::Mapping(es) => es,
            _ => {
                proof {
                    reveal_strlit("Config root must be a YAML mapping");
                }
                return Err(String::from_str("Config root must be a YAML mapping"));
            },
        };
        let ghost entries_seq = entries@;
        let (rest1, proxies_entry) = remove_entry(entries, "proxies");
        let (pkey, items) = match proxies_entry {
            Some(kv) => {
                let (pk, pv) = kv;
                match pv {
                    YamlValue::List(items) => (pk, items),
                    _ => {
                        proof {
                            reveal_strlit("Proxies section must be a sequence");
                        }
                        return Err(String::from_str("Proxies section must be a sequence"));
                    },
                }
            },
            None => (text_node("proxies"), Vec::new()),
        };
        let ghost old_items_seq = items@;
        let existing = existing_proxies(&items, &self.config);
        let (new_items, added) = add_proxy_node(items, &self.config);
        let (rest2, groups_entry) = remove_entry(rest1, "proxy-groups");
        proof {
            reveal_strlit("proxies");
            reveal_strlit("proxy-groups");
            assert("proxies"@.len() != "proxy-groups"@.len());
            lemma_entries_remove_get_other(entries_seq, "proxies"@, "proxy-groups"@);
        }
        let (gkey, groups) = match groups_entry {
            Some(kv) => {
                let (gk, gv) = kv;
                match gv {
                    YamlValue::List(gs) => (gk, gs),
                    _ => {
                        proof {
                            reveal_strlit("Proxy-groups section must be a sequence");
                        }
                        return Err(String::from_str("Proxy-groups section must be a sequence"));
                    },
                }
            },
            None => (text_node("proxy-groups"), Vec::new()),
        };
        let ghost old_groups_seq = groups@;
        let main = detect_main_group(&rest2, &groups);
        let (groups2, created) = create_chain_proxies(groups, &existing, &self.config);
        let ghost groups2_seq = groups2@;
        let (groups3, updated) = add_selector_to_main_group(groups2, &main);
        let ghost groups3_seq = groups3@;
        let ghost new_items_seq = new_items@;
        let mut head: Vec<(YamlValue, YamlValue)> = Vec::new();
        head.push((pkey, YamlValue::List(new_items)));
        head.push((gkey, YamlValue::List(groups3)));
        let ghost head_seq = head@;
        let new_entries = append_entries(head, rest2);
        let new_doc = YamlValue::Mapping(new_entries);
        proof {
            reveal_strlit("proxies");
            reveal_strlit("proxy-groups");
            assert("proxies"@.len() != "proxy-groups"@.len());
            let nes = new_entries@;
            assert(nes[0] == head_seq[0]);
            assert(nes[1] == head_seq[1]);
            assert(spec_is_text(nes[0].0, "proxies"@));
            assert(spec_entries_get(nes, "proxies"@) == Some(nes[0].1));
            assert(!spec_is_text(nes[0].0, "proxy-groups"@));
            assert(nes.skip(1)[0] == nes[1]);
            assert(spec_is_text(nes[1].0, "proxy-groups"@));
            assert(spec_entries_get(nes, "proxy-groups"@) == spec_entries_get(
                nes.skip(1),
                "proxy-groups"@,
            ));
            assert(spec_entries_get(nes.skip(1), "proxy-groups"@) == Some(nes[1].1));
            assert forall|k: Seq<char>|
                k != "proxies"@ && k != "proxy-groups"@ implies #[trigger] spec_entries_get(
                nes,
                k,
            ) == doc_ghost.spec_get(k) by {
                assert(!spec_is_text(nes[0].0, k));
                assert(!spec_is_text(nes[1].0, k));
                assert(nes.skip(1).skip(1) =~= rest2@);
                assert(spec_entries_get(nes, k) == spec_entries_get(nes.skip(1), k));
                assert(spec_entries_get(nes.skip(1), k) == spec_entries_get(rest2@, k));
                lemma_entries_remove_get_other(rest1@, "proxy-groups"@, k);
                lemma_entries_remove_get_other(entries_seq, "proxies"@, k);
            }
            let c = self.spec_config();
            // the output proxies list carries the local node
            assert(nes[0].1 matches YamlValue::List(xs) && xs@ == new_items_seq);
            assert(nes[1].1 matches YamlValue::List(xs) && xs@ == groups3_seq);
            // the per-document views of the inputs
            reveal_strlit("rules");
            assert("rules"@.len() == 5);
            if old_items_seq.len() == 0 && doc_ghost.spec_get("proxies"@) is None {
                assert(spec_proxy_names(old_items_seq) =~= Seq::<String>::empty());
            }
            assert(existing@ == spec_doc_existing_proxies(doc_ghost, c));
            assert(old_groups_seq == spec_doc_groups(doc_ghost));
            assert(spec_proxy_names(old_groups_seq) == spec_doc_group_names(doc_ghost));
            let missing = spec_missing_chains(
                existing@,
                spec_doc_group_names(doc_ghost),
                c.chain_suffix@,
            );
            assert(created == missing.len());
            // detection over the document's own sections
            lemma_entries_remove_get_other(rest1@, "proxy-groups"@, "rules"@);
            lemma_entries_remove_get_other(entries_seq, "proxies"@, "rules"@);
            assert(spec_entries_get(rest2@, "rules"@) == doc_ghost.spec_get("rules"@));
            if updated == 1 {
                assert(main is Some);
                assert(spec_detect_main(doc_ghost.spec_get("rules"@), spec_doc_groups(doc_ghost))
                    is Some);
            }
            // each counted chain stands in the output groups, and so does
            // the automatic group: the one group the selector step may
            // rewrite is of type `select`, which no relay or automatic
            // group is
            if existing@.len() > 0 {
                let kept_len = old_groups_seq.filter(
                    |g: YamlValue| !spec_auto_or_selector_named(g),
                ).len() as int;
                let ghost target: int = if updated == 1 {
                    match &main {
                        Some(n) => spec_selector_target(groups2_seq, n@).unwrap(),
                        None => 0int,
                    }
                } else {
                    0int
                };
                if updated == 1 {
                    match &main {
                        Some(n) => {
                            lemma_selector_target_characterization(groups2_seq, n@);
                            assert(spec_is_select_group(groups2_seq[target]));
                        },
                        None => {
                            assert(false);
                        },
                    }
                }
                assert(spec_merger_auto(groups2_seq[1], existing@, c));
                if updated == 1 && target == 1 {
                    lemma_auto_not_select(groups2_seq[1], existing@, c);
                    assert(false);
                }
                assert(groups3_seq[1] == groups2_seq[1]);
                assert forall|i: int| 0 <= i < missing.len() implies (exists|g: int|
                    0 <= g < groups3_seq.len() && spec_merger_relay(
                        #[trigger] groups3_seq[g],
                        #[trigger] missing[i]@,
                        c,
                    )) by {
                    let idx = 2 + kept_len + i;
                    assert(spec_merger_relay(groups2_seq[idx], missing[i]@, c));
                    if updated == 1 && target == idx {
                        lemma_relay_not_select(groups2_seq[idx], missing[i]@, c);
                        assert(false);
                    }
                    assert(groups3_seq[idx] == groups2_seq[idx]);
                    assert(spec_merger_relay(groups3_seq[idx], missing[i]@, c));
                }
            } else {
                reveal(Seq::filter);
                assert(missing =~= Seq::<String>::empty());
            }
        }
        let result = MergeResult {
            proxy_added: added,
            groups_updated: updated,
            chains_created: created,
            backup_path: None,
            warnings: Vec::new(),
        };
        Ok((new_doc, result))
    }
}

} // verus!
