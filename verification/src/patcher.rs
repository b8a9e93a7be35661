//! The Clash configuration patcher's data model and its pure pieces: the
//! SOCKS5 node description, the patch options and report, the proxy-string
//! parser, and keyword filtering of proxy names. The YAML rewriting that a
//! patch performs on a configuration file is driven by the caller around
//! these.

use vstd::prelude::*;

use crate::proxy::config::{option_view, parse_upstream_parts, spec_parse_upstream};
use crate::strutil::{
    chars_to_string, contains_seq, decimal_string, spec_contains_seq, spec_starts_with,
    starts_with_chars, to_chars,
};
use crate::yaml::{
    lemma_entries_remove_get_other, parse_yaml, remove_entry, spec_entries_get, spec_is_text,
    text_node, yaml_to_string, YamlValue,
};

verus! {

/// A SOCKS5 proxy node as the patcher writes it into a configuration.
#[derive(Debug, Clone)]
pub struct Socks5Proxy {
    /// Node name; new nodes are always named `SOCKS5-FixedIP`.
    pub name: String,
    /// Proxy host.
    pub host: String,
    /// Proxy port.
    pub port: u16,
    /// Optional username.
    pub username: Option<String>,
    /// Optional password.
    pub password: Option<String>,
}

impl Socks5Proxy {
    /// A node with the fixed patcher name.
    pub fn new(host: String, port: u16, username: Option<String>, password: Option<String>) -> (
        r: Socks5Proxy)
        ensures
            r.name@ == "SOCKS5-FixedIP"@,
            r.host == host,
            r.port == port,
            r.username == username,
            r.password == password,
    {
        Socks5Proxy { name: String::from_str("SOCKS5-FixedIP"), host, port, username, password }
    }
}

/// Options of a patch run.
#[derive(Debug, Clone, Default)]
pub struct PatchOptions {
    /// Keep only proxies whose name contains one of these keywords
    /// (case-insensitively); empty keeps everything.
    pub filter_keywords: Vec<String>,
}

/// What a patch run reports.
#[derive(Debug, Clone)]
pub struct PatchResult {
    /// Whether the patch succeeded.
    pub success: bool,
    /// Log lines describing what happened.
    pub logs: Vec<String>,
    /// The patched configuration text, when one was produced.
    pub output: Option<String>,
    /// Names of the relay groups the patch created.
    pub relay_names: Vec<String>,
}

/// Parse a proxy string (`user:pass@host:port` or `host:port[:user:pass]`)
/// into a SOCKS5 node named `SOCKS5-FixedIP`; see
/// [`spec_parse_upstream`] for the exact grammar.
pub fn parse_proxy_string(input: &str) -> (r: Option<Socks5Proxy>)
    ensures
        match r {
            Some(p) => match spec_parse_upstream(input@) {
                Some(q) => p.name@ == "SOCKS5-FixedIP"@ && p.host@ == q.host && p.port == q.port
                    && option_view(p.username) == q.username && option_view(p.password)
                    == q.password,
                None => false,
            },
            None => spec_parse_upstream(input@) is None,
        },
{
    match parse_upstream_parts(input) {
        Some(p) => Some(Socks5Proxy::new(p.0, p.1, p.2, p.3)),
        None => None,
    }
}

/// What `str::to_lowercase` returns; the mapping depends on the characters
/// alone.
pub uninterp spec fn lower_of(s: Seq<char>) -> Seq<char>;

/// Relies on `str::to_lowercase`: the result is a function of the
/// characters alone, and an empty string stays empty.
#[verifier::external_body]
fn lowercase(s: &str) -> (r: String)
    ensures
        r@ == lower_of(s@),
        s@.len() == 0 ==> r@.len() == 0,
{
    s.to_lowercase()
}

/// Whether a proxy name matches any keyword: some keyword's lowercase form
/// occurs inside the name's lowercase form.
pub open spec fn spec_keyword_match(name: Seq<char>, keywords: Seq<Seq<char>>) -> bool {
    exists|j: int|
        0 <= j < keywords.len() && spec_contains_seq(lower_of(name), lower_of(#[trigger] keywords[j]))
}

fn matches_any_keyword(name: &String, keywords: &Vec<String>) -> (r: bool)
    ensures
        r == spec_keyword_match(name@, keywords.deep_view()),
{
    let lname = lowercase(name.as_str());
    let lname_chars = to_chars(lname.as_str());
    let mut j: usize = 0;
    while j < keywords.len()
        invariant
            j <= keywords@.len(),
            lname_chars@ == lower_of(name@),
            forall|k: int|
                0 <= k < j ==> !spec_contains_seq(lower_of(name@), lower_of(
                    #[trigger] keywords.deep_view()[k],
                )),
        decreases keywords@.len() - j,
    {
        let kw: &String = &keywords[j];
        let lkw = lowercase(kw.as_str());
        let lkw_chars = to_chars(lkw.as_str());
        proof {
            assert(keywords.deep_view()[j as int] == keywords@[j as int]@);
        }
        if contains_seq(&lname_chars, &lkw_chars) {
            return true;
        }
        j = j + 1;
    }
    false
}

/// Keep the proxy names that pass the keyword filter; an empty keyword
/// list keeps every name.
pub fn filter_proxies_by_keywords(proxy_names: &Vec<String>, keywords: &Vec<String>) -> (r: Vec<
    String,
>)
    ensures
        keywords@.len() == 0 ==> r@ == proxy_names@,
        keywords@.len() > 0 ==> r@ == proxy_names@.filter(
            |n: String| spec_keyword_match(n@, keywords.deep_view()),
        ),
{
    if keywords.len() == 0 {
        let mut out: Vec<String> = Vec::new();
        let mut i: usize = 0;
        while i < proxy_names.len()
            invariant
                i <= proxy_names@.len(),
                out@ == proxy_names@.take(i as int),
            decreases proxy_names@.len() - i,
        {
            let name: &String = &proxy_names[i];
            out.push(name.clone());
            i = i + 1;
            assert(out@ =~= proxy_names@.take(i as int));
        }
        assert(out@ =~= proxy_names@);
        return out;
    }
    let ghost pred = |n: String| spec_keyword_match(n@, keywords.deep_view());
    let mut out: Vec<String> = Vec::new();
    let mut i: usize = 0;
    proof {
        reveal(Seq::filter);
        assert(proxy_names@.take(0) =~= Seq::<String>::empty());
        assert(Seq::<String>::empty().filter(pred) =~= Seq::<String>::empty());
    }
    while i < proxy_names.len()
        invariant
            i <= proxy_names@.len(),
            keywords@.len() > 0,
            pred == (|n: String| spec_keyword_match(n@, keywords.deep_view())),
            out@ == proxy_names@.take(i as int).filter(pred),
        decreases proxy_names@.len() - i,
    {
        let name: &String = &proxy_names[i];
        proof {
            reveal(Seq::filter);
            assert(proxy_names@.take(i + 1).drop_last() =~= proxy_names@.take(i as int));
            assert(proxy_names@.take(i + 1).last() == proxy_names@[i as int]);
            assert(pred(proxy_names@[i as int]) == spec_keyword_match(
                proxy_names@[i as int]@,
                keywords.deep_view(),
            ));
            if pred(proxy_names@[i as int]) {
                assert(proxy_names@.take(i + 1).filter(pred) =~= proxy_names@.take(
                    i as int,
                ).filter(pred).push(proxy_names@[i as int]));
            } else {
                assert(proxy_names@.take(i + 1).filter(pred) =~= proxy_names@.take(
                    i as int,
                ).filter(pred));
            }
        }
        if matches_any_keyword(name, keywords) {
            out.push(name.clone());
        }
        i = i + 1;
    }
    proof {
        assert(proxy_names@.take(proxy_names@.len() as int) =~= proxy_names@);
    }
    out
}


/// The characters [`clean_proxy_name`] strips: brackets, parentheses
/// (ASCII and full-width), and spaces.
pub open spec fn spec_stripped_char(c: char) -> bool {
    c == '[' || c == ']' || c == '(' || c == ')' || c == '\u{ff08}' || c == '\u{ff09}' || c == ' '
}

/// A proxy name with brackets, parentheses and spaces removed, as used
/// inside chain group names.
pub open spec fn spec_clean_name(s: Seq<char>) -> Seq<char> {
    s.filter(|c: char| !spec_stripped_char(c))
}

fn is_stripped_char(c: char) -> (r: bool)
    ensures
        r == spec_stripped_char(c),
{
    c == '[' || c == ']' || c == '(' || c == ')' || c == '\u{ff08}' || c == '\u{ff09}' || c == ' '
}

/// Strip brackets, parentheses and spaces from a proxy name.
pub fn clean_proxy_name(name: &str) -> (r: String)
    ensures
        r@ == spec_clean_name(name@),
{
    let chars = to_chars(name);
    let ghost pred = |c: char| !spec_stripped_char(c);
    let mut kept: Vec<char> = Vec::new();
    let mut i: usize = 0;
    proof {
        reveal(Seq::filter);
        assert(chars@.take(0) =~= Seq::<char>::empty());
        assert(Seq::<char>::empty().filter(pred) =~= Seq::<char>::empty());
    }
    while i < chars.len()
        invariant
            i <= chars@.len(),
            chars@ == name@,
            pred == (|c: char| !spec_stripped_char(c)),
            kept@ == chars@.take(i as int).filter(pred),
        decreases chars@.len() - i,
    {
        let c = chars[i];
        proof {
            reveal(Seq::filter);
            assert(chars@.take(i + 1).drop_last() =~= chars@.take(i as int));
            assert(chars@.take(i + 1).last() == chars@[i as int]);
            assert(pred(chars@[i as int]) == !spec_stripped_char(chars@[i as int]));
            if pred(chars@[i as int]) {
                assert(chars@.take(i + 1).filter(pred) =~= chars@.take(i as int).filter(
                    pred,
                ).push(chars@[i as int]));
            } else {
                assert(chars@.take(i + 1).filter(pred) =~= chars@.take(i as int).filter(pred));
            }
        }
        if !is_stripped_char(c) {
            kept.push(c);
        }
        i = i + 1;
    }
    proof {
        assert(chars@.take(chars@.len() as int) =~= chars@);
    }
    chars_to_string(&kept)
}

/// The chain group name of a proxy: `Chain-` plus the cleaned proxy name.
pub open spec fn spec_chain_name(name: Seq<char>) -> Seq<char> {
    "Chain-"@ + spec_clean_name(name)
}

/// Format a proxy's chain group name.
pub fn chain_name(name: &str) -> (r: String)
    ensures
        r@ == spec_chain_name(name@),
{
    String::from_str("Chain-").concat(clean_proxy_name(name).as_str())
}

/// The `name` field of a node, when it is a string.
pub open spec fn spec_name_of(entry: YamlValue) -> Option<String> {
    match entry.spec_get("name"@) {
        Some(v) => match v {
            YamlValue::Str(s) => Some(s),
            _ => None,
        },
        None => None,
    }
}

pub(crate) fn name_of(entry: &YamlValue) -> (r: Option<String>)
    ensures
        match r {
            Some(n) => spec_name_of(*entry) == Some(n),
            None => spec_name_of(*entry) is None,
        },
{
    match entry.get("name") {
        Some(v) => match v.as_text() {
            Some(s) => Some(s.clone()),
            None => None,
        },
        None => None,
    }
}

/// The names of the nodes in a list, in order, skipping nodes without a
/// string `name` field.
pub open spec fn spec_proxy_names(items: Seq<YamlValue>) -> Seq<String>
    decreases items.len(),
{
    if items.len() == 0 {
        Seq::empty()
    } else {
        let rest = spec_proxy_names(items.drop_last());
        match spec_name_of(items.last()) {
            Some(n) => rest.push(n),
            None => rest,
        }
    }
}

/// The proxy names of a document: the names in its `proxies` list, or
/// nothing when the document has no such list.
pub open spec fn spec_doc_proxy_names(doc: YamlValue) -> Seq<String> {
    match doc.spec_get("proxies"@) {
        Some(v) => match v {
            YamlValue::List(items) => spec_proxy_names(items@),
            _ => Seq::empty(),
        },
        None => Seq::empty(),
    }
}

/// Collect the string names of a node list, per [`spec_proxy_names`].
pub fn collect_names(items: &Vec<YamlValue>) -> (r: Vec<String>)
    ensures
        r@ == spec_proxy_names(items@),
{
    let mut names: Vec<String> = Vec::new();
    let mut i: usize = 0;
    proof {
        assert(items@.take(0) =~= Seq::<YamlValue>::empty());
    }
    while i < items.len()
        invariant
            i <= items@.len(),
            names@ == spec_proxy_names(items@.take(i as int)),
        decreases items@.len() - i,
    {
        let item: &YamlValue = &items[i];
        proof {
            assert(items@.take(i + 1).drop_last() =~= items@.take(i as int));
            assert(items@.take(i + 1).last() == items@[i as int]);
        }
        match name_of(item) {
            Some(n) => {
                names.push(n);
            },
            None => {},
        }
        i = i + 1;
    }
    proof {
        assert(items@.take(items@.len() as int) =~= items@);
    }
    names
}

/// Collect the proxy names of a document.
pub fn get_existing_proxy_names(config: &YamlValue) -> (r: Vec<String>)
    ensures
        r@ == spec_doc_proxy_names(*config),
{
    match config.get("proxies") {
        Some(v) => match v {
            YamlValue::List(items) => collect_names(items),
            _ => Vec::new(),
        },
        None => Vec::new(),
    }
}

/// Whether a proxy name matches one of the fixed skip patterns the patcher
/// never chains.
pub open spec fn spec_skip_name(name: Seq<char>) -> bool {
    spec_contains_seq(name, "\u{82e5}\u{8282}\u{70b9}\u{8d85}\u{65f6}"@) || spec_contains_seq(
        name,
        "Emby"@,
    ) || spec_contains_seq(name, "SOCKS5"@)
}

/// Drop the proxy names that match a fixed skip pattern.
pub fn filter_skip_patterns(names: &Vec<String>) -> (r: Vec<String>)
    ensures
        r@ == names@.filter(|n: String| !spec_skip_name(n@)),
{
    let ghost pred = |n: String| !spec_skip_name(n@);
    let p1 = to_chars("\u{82e5}\u{8282}\u{70b9}\u{8d85}\u{65f6}");
    let p2 = to_chars("Emby");
    let p3 = to_chars("SOCKS5");
    let mut out: Vec<String> = Vec::new();
    let mut i: usize = 0;
    proof {
        reveal(Seq::filter);
        assert(names@.take(0) =~= Seq::<String>::empty());
        assert(Seq::<String>::empty().filter(pred) =~= Seq::<String>::empty());
    }
    while i < names.len()
        invariant
            i <= names@.len(),
            p1@ == "\u{82e5}\u{8282}\u{70b9}\u{8d85}\u{65f6}"@,
            p2@ == "Emby"@,
            p3@ == "SOCKS5"@,
            pred == (|n: String| !spec_skip_name(n@)),
            out@ == names@.take(i as int).filter(pred),
        decreases names@.len() - i,
    {
        let name: &String = &names[i];
        let name_chars = to_chars(name.as_str());
        let skip = contains_seq(&name_chars, &p1) || contains_seq(&name_chars, &p2)
            || contains_seq(&name_chars, &p3);
        proof {
            reveal(Seq::filter);
            assert(names@.take(i + 1).drop_last() =~= names@.take(i as int));
            assert(names@.take(i + 1).last() == names@[i as int]);
            assert(pred(names@[i as int]) == !spec_skip_name(names@[i as int]@));
            if pred(names@[i as int]) {
                assert(names@.take(i + 1).filter(pred) =~= names@.take(i as int).filter(
                    pred,
                ).push(names@[i as int]));
            } else {
                assert(names@.take(i + 1).filter(pred) =~= names@.take(i as int).filter(pred));
            }
        }
        if !skip {
            out.push(name.clone());
        }
        i = i + 1;
    }
    proof {
        assert(names@.take(names@.len() as int) =~= names@);
    }
    out
}

/// The names the patcher keeps: skip patterns out, then the keyword
/// filter (an empty keyword list keeps everything).
pub open spec fn spec_valid_proxies(names: Seq<String>, keywords: Seq<Seq<char>>) -> Seq<String> {
    let kept = names.filter(|n: String| !spec_skip_name(n@));
    if keywords.len() == 0 {
        kept
    } else {
        kept.filter(|n: String| spec_keyword_match(n@, keywords))
    }
}

/// The names the patcher keeps, per [`spec_valid_proxies`].
pub fn valid_proxies(names: &Vec<String>, options: &PatchOptions) -> (r: Vec<String>)
    ensures
        r@ == spec_valid_proxies(names@, options.filter_keywords.deep_view()),
{
    let kept = filter_skip_patterns(names);
    filter_proxies_by_keywords(&kept, &options.filter_keywords)
}

/// Chain group names for the kept proxies, in order.
pub fn build_relay_names(valid: &Vec<String>) -> (r: Vec<String>)
    ensures
        r@.len() == valid@.len(),
        forall|i: int| 0 <= i < valid@.len() ==> #[trigger] r@[i]@ == spec_chain_name(valid@[i]@),
{
    let mut out: Vec<String> = Vec::new();
    let mut i: usize = 0;
    while i < valid.len()
        invariant
            i <= valid@.len(),
            out@.len() == i,
            forall|j: int| 0 <= j < i ==> #[trigger] out@[j]@ == spec_chain_name(valid@[j]@),
        decreases valid@.len() - i,
    {
        let name: &String = &valid[i];
        out.push(chain_name(name.as_str()));
        i = i + 1;
    }
    out
}


/// How the SOCKS5 node of a patch looks: name, type `socks5`, server,
/// port, `udp: true`, and a credential field for each nonempty credential.
pub open spec fn spec_socks5_node(v: YamlValue, p: Socks5Proxy) -> bool {
    match v {
        YamlValue::Mapping(es) => {
            let extra_user: int = if p.username is Some && p.username.unwrap()@.len() > 0 {
                1
            } else {
                0
            };
            let extra_pass: int = if p.password is Some && p.password.unwrap()@.len() > 0 {
                1
            } else {
                0
            };
            &&& es@.len() == 5 + extra_user + extra_pass
            &&& spec_is_text(es@[0].0, "name"@) && spec_is_text(es@[0].1, p.name@)
            &&& spec_is_text(es@[1].0, "type"@) && spec_is_text(es@[1].1, "socks5"@)
            &&& spec_is_text(es@[2].0, "server"@) && spec_is_text(es@[2].1, p.host@)
            &&& spec_is_text(es@[3].0, "port"@) && es@[3].1 == YamlValue::Int(p.port as i64)
            &&& spec_is_text(es@[4].0, "udp"@) && es@[4].1 == YamlValue::Bool(true)
            &&& (extra_user == 1 ==> spec_is_text(es@[5].0, "username"@) && spec_is_text(
                es@[5].1,
                p.username.unwrap()@,
            ))
            &&& (extra_pass == 1 ==> spec_is_text(es@[5 + extra_user].0, "password"@)
                && spec_is_text(es@[5 + extra_user].1, p.password.unwrap()@))
        },
        _ => false,
    }
}

impl Socks5Proxy {
    /// The node as it is written into a configuration's `proxies` list.
    pub fn to_yaml_value(&self) -> (r: YamlValue)
        ensures
            spec_socks5_node(r, *self),
    {
        let mut entries: Vec<(YamlValue, YamlValue)> = Vec::new();
        entries.push((text_node("name"), YamlValue::Str(self.name.clone())));
        entries.push((text_node("type"), text_node("socks5")));
        entries.push((text_node("server"), YamlValue::Str(self.host.clone())));
        entries.push((text_node("port"), YamlValue::Int(self.port as i64)));
        entries.push((text_node("udp"), YamlValue::Bool(true)));
        match &self.username {
            Some(user) => {
                if !user.as_str().is_empty() {
                    entries.push((text_node("username"), YamlValue::Str(user.clone())));
                }
            },
            None => {},
        }
        match &self.password {
            Some(pass) => {
                if !pass.as_str().is_empty() {
                    entries.push((text_node("password"), YamlValue::Str(pass.clone())));
                }
            },
            None => {},
        }
        YamlValue::Mapping(entries)
    }
}

/// How a relay chain group looks: named after the proxy it chains, of type
/// `relay`, routing first through the proxy and then through the local
/// SOCKS5 node.
pub open spec fn spec_relay_group(v: YamlValue, first: Seq<char>, socks5_name: Seq<char>) -> bool {
    match v {
        YamlValue::Mapping(es) => {
            &&& es@.len() == 3
            &&& spec_is_text(es@[0].0, "name"@) && spec_is_text(es@[0].1, spec_chain_name(first))
            &&& spec_is_text(es@[1].0, "type"@) && spec_is_text(es@[1].1, "relay"@)
            &&& spec_is_text(es@[2].0, "proxies"@) && (match es@[2].1 {
                YamlValue::List(ps) => ps@.len() == 2 && spec_is_text(ps@[0], first)
                    && spec_is_text(ps@[1], socks5_name),
                _ => false,
            })
        },
        _ => false,
    }
}

/// Build the relay chain group for one proxy.
pub fn create_relay_group(first_proxy: &str, socks5_name: &str) -> (r: YamlValue)
    ensures
        spec_relay_group(r, first_proxy@, socks5_name@),
        spec_name_of(r) matches Some(n) && n@ == spec_chain_name(first_proxy@),
{
    let mut proxies: Vec<YamlValue> = Vec::new();
    proxies.push(text_node(first_proxy));
    proxies.push(text_node(socks5_name));
    let mut entries: Vec<(YamlValue, YamlValue)> = Vec::new();
    entries.push((text_node("name"), YamlValue::Str(chain_name(first_proxy))));
    entries.push((text_node("type"), text_node("relay")));
    entries.push((text_node("proxies"), YamlValue::List(proxies)));
    let r = YamlValue::Mapping(entries);
    proof {
        assert(r.spec_get("name"@) is Some);
    }
    r
}

/// How the manual chain selector group looks: named `Chain-Selector`, of
/// type `select`, listing every relay chain group by name.
pub open spec fn spec_chain_selector(v: YamlValue, relay_names: Seq<String>) -> bool {
    match v {
        YamlValue::Mapping(es) => {
            &&& es@.len() == 3
            &&& spec_is_text(es@[0].0, "name"@) && spec_is_text(es@[0].1, "Chain-Selector"@)
            &&& spec_is_text(es@[1].0, "type"@) && spec_is_text(es@[1].1, "select"@)
            &&& spec_is_text(es@[2].0, "proxies"@) && (match es@[2].1 {
                YamlValue::List(ps) => ps@.len() == relay_names.len() && forall|i: int|
                    0 <= i < relay_names.len() ==> spec_is_text(#[trigger] ps@[i], relay_names[i]@),
                _ => false,
            })
        },
        _ => false,
    }
}

/// Build the chain selector group over these relay names.
pub fn create_chain_selector(relay_names: &Vec<String>) -> (r: YamlValue)
    ensures
        spec_chain_selector(r, relay_names@),
{
    let mut proxies: Vec<YamlValue> = Vec::new();
    let mut i: usize = 0;
    while i < relay_names.len()
        invariant
            i <= relay_names@.len(),
            proxies@.len() == i,
            forall|j: int|
                0 <= j < i ==> spec_is_text(#[trigger] proxies@[j], relay_names@[j]@),
        decreases relay_names@.len() - i,
    {
        let name: &String = &relay_names[i];
        proxies.push(YamlValue::Str(name.clone()));
        i = i + 1;
    }
    let mut entries: Vec<(YamlValue, YamlValue)> = Vec::new();
    entries.push((text_node("name"), text_node("Chain-Selector")));
    entries.push((text_node("type"), text_node("select")));
    entries.push((text_node("proxies"), YamlValue::List(proxies)));
    YamlValue::Mapping(entries)
}

/// Whether a group carries a name that begins with `Chain-`, and is
/// therefore one of the patcher's own groups.
pub open spec fn spec_chain_named(g: YamlValue) -> bool {
    match spec_name_of(g) {
        Some(n) => spec_starts_with(n@, "Chain-"@),
        None => false,
    }
}

fn is_chain_named(g: &YamlValue) -> (r: bool)
    ensures
        r == spec_chain_named(*g),
{
    match name_of(g) {
        Some(n) => {
            let prefix = to_chars("Chain-");
            let name_chars = to_chars(n.as_str());
            starts_with_chars(&name_chars, &prefix)
        },
        None => false,
    }
}

/// Drop the patcher's own `Chain-` groups from a group list.
fn drop_chain_groups(groups: Vec<YamlValue>) -> (r: Vec<YamlValue>)
    ensures
        r@ == groups@.filter(|g: YamlValue| !spec_chain_named(g)),
{
    let ghost before = groups@;
    let ghost pred = |g: YamlValue| !spec_chain_named(g);
    let mut groups = groups;
    let total: usize = groups.len();
    let mut out: Vec<YamlValue> = Vec::new();
    let mut i: usize = 0;
    proof {
        reveal(Seq::filter);
        assert(before.take(0) =~= Seq::<YamlValue>::empty());
        assert(Seq::<YamlValue>::empty().filter(pred) =~= Seq::<YamlValue>::empty());
    }
    while groups.len() > 0
        invariant
            total == before.len(),
            i + groups@.len() == total,
            groups@ == before.skip(i as int),
            pred == (|g: YamlValue| !spec_chain_named(g)),
            out@ == before.take(i as int).filter(pred),
        decreases groups@.len(),
    {
        let g = groups.remove(0);
        proof {
            reveal(Seq::filter);
            assert(before.skip(i as int)[0] == before[i as int]);
            assert(before.skip(i as int).skip(1) =~= before.skip(i as int + 1));
            assert(before.take(i + 1).drop_last() =~= before.take(i as int));
            assert(before.take(i + 1).last() == before[i as int]);
            assert(pred(before[i as int]) == !spec_chain_named(before[i as int]));
            if pred(before[i as int]) {
                assert(before.take(i + 1).filter(pred) =~= before.take(i as int).filter(
                    pred,
                ).push(before[i as int]));
            } else {
                assert(before.take(i + 1).filter(pred) =~= before.take(i as int).filter(pred));
            }
        }
        if !is_chain_named(&g) {
            out.push(g);
        }
        i = i + 1;
    }
    proof {
        assert(before.take(before.len() as int) =~= before);
    }
    out
}



/// Whether some name in the list reads `name`.
pub open spec fn spec_has_proxy_name(names: Seq<String>, name: Seq<char>) -> bool {
    exists|i: int| 0 <= i < names.len() && #[trigger] names[i]@ == name
}

pub(crate) fn contains_string(names: &Vec<String>, target: &String) -> (r: bool)
    ensures
        r == spec_has_proxy_name(names@, target@),
{
    let mut i: usize = 0;
    while i < names.len()
        invariant
            i <= names@.len(),
            forall|j: int| 0 <= j < i ==> #[trigger] names@[j]@ != target@,
        decreases names@.len() - i,
    {
        let name: &String = &names[i];
        if *name == *target {
            return true;
        }
        i = i + 1;
    }
    false
}

/// Relay chain groups for the kept proxies, in order.
fn build_relay_groups(valid: &Vec<String>, socks5_name: &str) -> (r: Vec<YamlValue>)
    ensures
        r@.len() == valid@.len(),
        forall|i: int|
            0 <= i < valid@.len() ==> spec_relay_group(#[trigger] r@[i], valid@[i]@, socks5_name@),
{
    let mut out: Vec<YamlValue> = Vec::new();
    let mut i: usize = 0;
    while i < valid.len()
        invariant
            i <= valid@.len(),
            out@.len() == i,
            forall|j: int|
                0 <= j < i ==> spec_relay_group(#[trigger] out@[j], valid@[j]@, socks5_name@),
        decreases valid@.len() - i,
    {
        let name: &String = &valid[i];
        out.push(create_relay_group(name.as_str(), socks5_name));
        i = i + 1;
    }
    out
}

/// Concatenate two node lists.
pub(crate) fn append_nodes(a: Vec<YamlValue>, b: Vec<YamlValue>) -> (r: Vec<YamlValue>)
    ensures
        r@ == a@ + b@,
{
    let ghost b_orig = b@;
    let mut out = a;
    let ghost a_orig = out@;
    let mut b = b;
    let total: usize = b.len();
    let mut i: usize = 0;
    proof {
        assert(out@ =~= a_orig + b_orig.take(0));
    }
    while b.len() > 0
        invariant
            total == b_orig.len(),
            i + b@.len() == total,
            b@ == b_orig.skip(i as int),
            out@ == a_orig + b_orig.take(i as int),
        decreases b@.len(),
    {
        let x = b.remove(0);
        proof {
            assert(b_orig.skip(i as int)[0] == b_orig[i as int]);
            assert(b_orig.skip(i as int).skip(1) =~= b_orig.skip(i as int + 1));
        }
        out.push(x);
        i = i + 1;
        proof {
            assert(out@ =~= a_orig + b_orig.take(i as int));
        }
    }
    proof {
        assert(b_orig.take(b_orig.len() as int) =~= b_orig);
    }
    out
}

/// Concatenate two entry lists.
pub(crate) fn append_entries(
    a: Vec<(YamlValue, YamlValue)>,
    b: Vec<(YamlValue, YamlValue)>,
) -> (r: Vec<(YamlValue, YamlValue)>)
    ensures
        r@ == a@ + b@,
{
    let ghost b_orig = b@;
    let mut out = a;
    let ghost a_orig = out@;
    let mut b = b;
    let total: usize = b.len();
    let mut i: usize = 0;
    proof {
        assert(out@ =~= a_orig + b_orig.take(0));
    }
    while b.len() > 0
        invariant
            total == b_orig.len(),
            i + b@.len() == total,
            b@ == b_orig.skip(i as int),
            out@ == a_orig + b_orig.take(i as int),
        decreases b@.len(),
    {
        let x = b.remove(0);
        proof {
            assert(b_orig.skip(i as int)[0] == b_orig[i as int]);
            assert(b_orig.skip(i as int).skip(1) =~= b_orig.skip(i as int + 1));
        }
        out.push(x);
        i = i + 1;
        proof {
            assert(out@ =~= a_orig + b_orig.take(i as int));
        }
    }
    proof {
        assert(b_orig.take(b_orig.len() as int) =~= b_orig);
    }
    out
}

/// The groups a patched document keeps from the original: the
/// `proxy-groups` list without the patcher's own `Chain-` groups, or
/// nothing when there is no such list.
pub open spec fn spec_old_base_groups(doc: YamlValue) -> Seq<YamlValue> {
    match doc.spec_get("proxy-groups"@) {
        Some(v) => match v {
            YamlValue::List(gs) => gs@.filter(|g: YamlValue| !spec_chain_named(g)),
            _ => Seq::empty(),
        },
        None => Seq::empty(),
    }
}

/// How a patched document relates to the original: its `proxies` list is
/// the original's, with the SOCKS5 node appended exactly when no proxy
/// carried its name; its `proxy-groups` list is the original's without the
/// old `Chain-` groups, then one relay chain group per kept proxy, then
/// the chain selector; and every other key keeps its value. The patched
/// document carries its `proxies` and `proxy-groups` sections first.
pub open spec fn spec_patched_doc(
    doc: YamlValue,
    new_doc: YamlValue,
    p: Socks5Proxy,
    valid: Seq<String>,
    relay_names: Seq<String>,
) -> bool {
    &&& new_doc is Mapping
    &&& match (doc.spec_get("proxies"@), new_doc.spec_get("proxies"@)) {
        (Some(old_v), Some(new_v)) => match (old_v, new_v) {
            (YamlValue::List(old_items), YamlValue::List(new_items)) => {
                if spec_has_proxy_name(spec_doc_proxy_names(doc), p.name@) {
                    new_items@ == old_items@
                } else {
                    new_items@.len() == old_items@.len() + 1 && new_items@.take(
                        old_items@.len() as int,
                    ) == old_items@ && spec_socks5_node(new_items@.last(), p)
                }
            },
            _ => false,
        },
        _ => false,
    }
    &&& match new_doc.spec_get("proxy-groups"@) {
        Some(v) => match v {
            YamlValue::List(gs) => {
                let base = spec_old_base_groups(doc);
                &&& gs@.len() == base.len() + valid.len() + 1
                &&& gs@.take(base.len() as int) == base
                &&& (forall|i: int|
                    0 <= i < valid.len() ==> spec_relay_group(
                        #[trigger] gs@[base.len() + i],
                        valid[i]@,
                        p.name@,
                    ))
                &&& spec_chain_selector(gs@.last(), relay_names)
            },
            _ => false,
        },
        None => false,
    }
    &&& (forall|k: Seq<char>|
        k != "proxies"@ && k != "proxy-groups"@ ==> #[trigger] new_doc.spec_get(k)
            == doc.spec_get(k))
}

fn empty_fail_result() -> (r: (PatchResult, Option<YamlValue>))
    ensures
        !r.0.success,
        r.0.output is None,
        r.0.relay_names@.len() == 0,
        r.1 is None,
{
    (
        PatchResult { success: false, logs: Vec::new(), output: None, relay_names: Vec::new() },
        None,
    )
}

/// Patch a parsed document: add the SOCKS5 node when absent, rebuild the
/// chain groups, and report what changed, per [`spec_patched_doc`]. The
/// second result is the patched document, absent exactly when no proxy
/// survives the filters.
pub fn apply_patch_doc(doc: YamlValue, proxy: &Socks5Proxy, options: &PatchOptions) -> (r: (
    PatchResult,
    Option<YamlValue>,
))
    ensures
        ({
            let names = spec_doc_proxy_names(doc);
            let valid = spec_valid_proxies(names, options.filter_keywords.deep_view());
            &&& (valid.len() == 0 ==> !r.0.success && r.0.output is None && r.0.relay_names@.len()
                == 0 && r.1 is None)
            &&& (valid.len() > 0 ==> r.0.success && r.0.output is None && r.0.relay_names@.len()
                == valid.len() && (forall|i: int|
                0 <= i < valid.len() ==> #[trigger] r.0.relay_names@[i]@ == spec_chain_name(
                    valid[i]@,
                )) && (r.1 matches Some(d2) && spec_patched_doc(
                doc,
                d2,
                *proxy,
                valid,
                r.0.relay_names@,
            )))
        }),
{
    let ghost doc_ghost = doc;
    let names = get_existing_proxy_names(&doc);
    let valid = valid_proxies(&names, options);
    if valid.len() == 0 {
        let mut logs: Vec<String> = Vec::new();
        logs.push(String::from_str("[ERROR] No available nodes for chain proxy"));
        return (
            PatchResult { success: false, logs, output: None, relay_names: Vec::new() },
            None,
        );
    }
    let relay_names = build_relay_names(&valid);
    proof {
        reveal(Seq::filter);
        reveal_strlit("proxies");
        reveal_strlit("proxy-groups");
        if names@.len() == 0 {
            assert(names@.filter(|n: String| !spec_skip_name(n@)) =~= Seq::<String>::empty());
            assert(Seq::<String>::empty().filter(
                |n: String| spec_keyword_match(n@, options.filter_keywords.deep_view()),
            ) =~= Seq::<String>::empty());
        }
        assert(names@.len() > 0);
    }
    let entries = match doc {
        YamlValue::Mapping(es) => es,
        _ => {
            proof {
                assert(false);
            }
            return empty_fail_result();
        },
    };
    let (rest1, proxies_entry) = remove_entry(entries, "proxies");
    let ghost entries_seq = entries@;
    let (pkey, pval) = match proxies_entry {
        Some(kv) => kv,
        None => {
            proof {
                assert(false);
            }
            return empty_fail_result();
        },
    };
    let mut items = match pval {
        YamlValue::List(items) => items,
        _ => {
            proof {
                assert(false);
            }
            return empty_fail_result();
        },
    };
    let ghost old_items_seq = items@;
    let has_node = contains_string(&names, &proxy.name);
    let mut logs: Vec<String> = Vec::new();
    logs.push(
        String::from_str("Found ").concat(decimal_string(valid.len() as u64).as_str()).concat(
            " available nodes",
        ),
    );
    if !has_node {
        items.push(proxy.to_yaml_value());
        logs.push(String::from_str("[+] Added SOCKS5 node: ").concat(proxy.name.as_str()));
    } else {
        logs.push(
            String::from_str("[=] SOCKS5 node already exists: ").concat(proxy.name.as_str()),
        );
    }
    let (rest2, groups_entry) = remove_entry(rest1, "proxy-groups");
    proof {
        reveal_strlit("proxies");
        reveal_strlit("proxy-groups");
        assert("proxies"@.len() != "proxy-groups"@.len());
        lemma_entries_remove_get_other(entries_seq, "proxies"@, "proxy-groups"@);
    }
    let base: Vec<YamlValue> = match groups_entry {
        Some(kv) => {
            let gv = kv.1;
            match gv {
                YamlValue::List(gs) => drop_chain_groups(gs),
                _ => Vec::new(),
            }
        },
        None => Vec::new(),
    };
    proof {
        assert(base@ == spec_old_base_groups(doc_ghost));
    }
    let ghost base_seq = base@;
    let relays = build_relay_groups(&valid, proxy.name.as_str());
    let ghost relays_seq = relays@;
    let mut groups = append_nodes(base, relays);
    groups.push(create_chain_selector(&relay_names));
    logs.push(
        String::from_str("[+] Added ").concat(
            decimal_string(relay_names.len() as u64).as_str(),
        ).concat(" chain proxy groups"),
    );
    logs.push(String::from_str("[+] Added chain selector: Chain-Selector"));
    let ghost new_items_seq = items@;
    let ghost groups_seq = groups@;
    let ghost selector_value = groups@.last();
    let mut head_entries: Vec<(YamlValue, YamlValue)> = Vec::new();
    head_entries.push((pkey, YamlValue::List(items)));
    head_entries.push((text_node("proxy-groups"), YamlValue::List(groups)));
    let new_entries = append_entries(head_entries, rest2);
    let new_doc = YamlValue::Mapping(new_entries);
    proof {
        reveal_strlit("proxies");
        reveal_strlit("proxy-groups");
        assert("proxies"@.len() != "proxy-groups"@.len());
        let ghost valid_spec = spec_valid_proxies(
            spec_doc_proxy_names(doc_ghost),
            options.filter_keywords.deep_view(),
        );
        let nes = new_entries@;
        assert(nes[0].0 == pkey && spec_is_text(pkey, "proxies"@));
        assert(new_doc.spec_get("proxies"@) == Some(nes[0].1));
        assert(nes[0].1 matches YamlValue::List(xs) && xs@ == new_items_seq);
        assert(doc_ghost.spec_get("proxies"@) is Some);
        if !spec_has_proxy_name(spec_doc_proxy_names(doc_ghost), proxy.name@) {
            assert(new_items_seq.take(old_items_seq.len() as int) =~= old_items_seq);
            assert(spec_socks5_node(new_items_seq.last(), *proxy));
        } else {
            assert(new_items_seq == old_items_seq);
        }
        assert(!spec_is_text(nes[0].0, "proxy-groups"@));
        assert(nes.skip(1)[0] == nes[1]);
        assert(spec_is_text(nes[1].0, "proxy-groups"@));
        assert(new_doc.spec_get("proxy-groups"@) == spec_entries_get(nes.skip(1), "proxy-groups"@));
        assert(spec_entries_get(nes.skip(1), "proxy-groups"@) == Some(nes[1].1));
        assert(nes[1].1 matches YamlValue::List(gs) && gs@ == groups_seq);
        assert(spec_chain_selector(selector_value, relay_names@));
        assert(groups_seq.last() == selector_value);
        // the groups list is base, then the relays, then the selector
        assert(groups@.take(base_seq.len() as int) =~= base_seq);
        assert(groups@.last() == groups@[base_seq.len() + relays_seq.len() as int]);
        assert forall|i: int| 0 <= i < valid_spec.len() implies spec_relay_group(
            #[trigger] groups@[base_seq.len() + i],
            valid_spec[i]@,
            proxy.name@,
        ) by {
            assert(groups@[base_seq.len() + i] == relays_seq[i]);
        }
        // every other key keeps its value
        assert forall|k: Seq<char>|
            k != "proxies"@ && k != "proxy-groups"@ implies #[trigger] new_doc.spec_get(k)
            == doc_ghost.spec_get(k) by {
            assert(!spec_is_text(nes[0].0, k));
            assert(nes.skip(1)[0] == nes[1]);
            assert(!spec_is_text(nes[1].0, k));
            assert(nes.skip(1).skip(1) =~= rest2@);
            assert(spec_entries_get(nes, k) == spec_entries_get(nes.skip(1), k));
            assert(spec_entries_get(nes.skip(1), k) == spec_entries_get(rest2@, k));
            lemma_entries_remove_get_other(rest1@, "proxy-groups"@, k);
            lemma_entries_remove_get_other(entries_seq, "proxies"@, k);
        }
    }
    (
        PatchResult { success: true, logs, output: None, relay_names },
        Some(new_doc),
    )
}

/// Preview a patch of a parsed document without rebuilding it: which
/// chain groups a patch would create, or why none would.
pub fn preview_patch_doc(doc: &YamlValue, proxy: &Socks5Proxy, options: &PatchOptions) -> (r:
    PatchResult)
    ensures
        ({
            let names = spec_doc_proxy_names(*doc);
            let valid = spec_valid_proxies(names, options.filter_keywords.deep_view());
            &&& r.output is None
            &&& (valid.len() == 0 ==> !r.success && r.relay_names@.len() == 0)
            &&& (valid.len() > 0 ==> r.success && r.relay_names@.len() == valid.len() && (forall|
                i: int,
            |
                0 <= i < valid.len() ==> #[trigger] r.relay_names@[i]@ == spec_chain_name(
                    valid[i]@,
                )) && r.logs@.len() == 3)
        }),
{
    let names = get_existing_proxy_names(doc);
    let valid = valid_proxies(&names, options);
    if valid.len() == 0 {
        let mut logs: Vec<String> = Vec::new();
        logs.push(String::from_str("[ERROR] No available nodes for chain proxy"));
        return PatchResult { success: false, logs, output: None, relay_names: Vec::new() };
    }
    let relay_names = build_relay_names(&valid);
    let mut logs: Vec<String> = Vec::new();
    logs.push(
        String::from_str("Found ").concat(decimal_string(names.len() as u64).as_str()).concat(
            " proxy nodes",
        ),
    );
    logs.push(
        String::from_str("After filtering: ").concat(
            decimal_string(valid.len() as u64).as_str(),
        ).concat(" available nodes"),
    );
    logs.push(
        String::from_str("SOCKS5 proxy: ").concat(proxy.host.as_str()).concat(":").concat(
            decimal_string(proxy.port as u64).as_str(),
        ),
    );
    PatchResult { success: true, logs, output: None, relay_names }
}

/// Preview a patch of configuration text: parse, then
/// [`preview_patch_doc`]; text that is not YAML fails with the parser's
/// diagnostic.
pub fn preview_patch(config_content: &str, proxy: &Socks5Proxy, options: &PatchOptions) -> (r:
    PatchResult)
    ensures
        r.output is None,
{
    match parse_yaml(config_content) {
        Ok(doc) => preview_patch_doc(&doc, proxy, options),
        Err(e) => {
            let mut logs: Vec<String> = Vec::new();
            logs.push(String::from_str("[ERROR] YAML parsing failed: ").concat(e.as_str()));
            PatchResult { success: false, logs, output: None, relay_names: Vec::new() }
        },
    }
}

/// Patch configuration text: parse, transform per [`apply_patch_doc`],
/// serialize. The patched text is present exactly on success.
pub fn apply_patch(config_content: &str, proxy: &Socks5Proxy, options: &PatchOptions) -> (r:
    PatchResult)
    ensures
        r.success ==> r.output is Some,
        !r.success ==> r.output is None,
{
    let doc = match parse_yaml(config_content) {
        Ok(d) => d,
        Err(e) => {
            let mut logs: Vec<String> = Vec::new();
            logs.push(String::from_str("[ERROR] YAML parsing failed: ").concat(e.as_str()));
            return PatchResult { success: false, logs, output: None, relay_names: Vec::new() };
        },
    };
    let (report, new_doc) = apply_patch_doc(doc, proxy, options);
    let mut report = report;
    match new_doc {
        Some(d2) => match yaml_to_string(&d2) {
            Ok(text) => {
                report.output = Some(text);
                report
            },
            Err(e) => {
                let mut logs: Vec<String> = Vec::new();
                logs.push(
                    String::from_str("[ERROR] YAML serialization failed: ").concat(e.as_str()),
                );
                PatchResult { success: false, logs, output: None, relay_names: Vec::new() }
            },
        },
        None => {
            report.output = None;
            report.success = false;
            report
        },
    }
}

} // verus!

