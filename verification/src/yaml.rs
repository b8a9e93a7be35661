//! A plain model of YAML documents, as the patcher reads and rewrites
//! them: scalars, lists and mappings with their entries in order. The
//! outside parser and serializer stand behind trusted items at the edge of
//! this module; every transformation works on the model and is verified.

use vstd::prelude::*;

verus! {

/// A YAML document node. A mapping keeps its entries in document order; a
/// key may be any node, though the configurations this crate rewrites key
/// by strings.
#[derive(Debug)]
pub enum YamlValue {
    /// A null scalar.
    Null,
    /// A boolean scalar.
    Bool(bool),
    /// An integer scalar.
    Int(i64),
    /// A string scalar; also the text form of anything the model does not
    /// hold exactly (a float, or an integer beyond `i64`).
    Str(String),
    /// A sequence.
    List(Vec<YamlValue>),
    /// A mapping, entries in order.
    Mapping(Vec<(YamlValue, YamlValue)>),
}

/// Whether a node is the string `s`.
pub open spec fn spec_is_text(v: YamlValue, s: Seq<char>) -> bool {
    match v {
        YamlValue::Str(x) => x@ == s,
        _ => false,
    }
}

/// The value under string key `key`, first match in entry order.
pub open spec fn spec_entries_get(
    entries: Seq<(YamlValue, YamlValue)>,
    key: Seq<char>,
) -> Option<YamlValue>
    decreases entries.len(),
{
    if entries.len() == 0 {
        None
    } else if spec_is_text(entries[0].0, key) {
        Some(entries[0].1)
    } else {
        spec_entries_get(entries.skip(1), key)
    }
}

impl YamlValue {
    /// The value under string key `key` when this node is a mapping that
    /// carries it.
    pub open spec fn spec_get(&self, key: Seq<char>) -> Option<YamlValue> {
        match self {
            YamlValue::Mapping(entries) => spec_entries_get(entries@, key),
            _ => None,
        }
    }

    /// Look a string key up in a mapping node.
    pub fn get<'a>(&'a self, key: &str) -> (r: Option<&'a YamlValue>)
        ensures
            match r {
                Some(v) => self.spec_get(key@) == Some(*v),
                None => self.spec_get(key@) is None,
            },
    {
        let entries: &Vec<(YamlValue, YamlValue)> = match self {
            YamlValue::Mapping(entries) => entries,
            _ => {
                return None;
            },
        };
        let key_string: String = key.to_owned();
        let mut i: usize = 0;
        proof {
            assert(entries@.skip(0) =~= entries@);
        }
        while i < entries.len()
            invariant
                i <= entries@.len(),
                key_string@ == key@,
                *self is Mapping,
                self->Mapping_0 == *entries,
                spec_entries_get(entries@, key@) == spec_entries_get(
                    entries@.skip(i as int),
                    key@,
                ),
            decreases entries@.len() - i,
        {
            let entry: &(YamlValue, YamlValue) = &entries[i];
            proof {
                assert(entries@.skip(i as int)[0] == entries@[i as int]);
                assert(entries@.skip(i as int).skip(1) =~= entries@.skip(i as int + 1));
            }
            let hit = match &entry.0 {
                YamlValue::Str(s) => *s == key_string,
                _ => false,
            };
            if hit {
                proof {
                    assert(spec_is_text(entries@[i as int].0, key@));
                    assert(spec_entries_get(entries@.skip(i as int), key@) == Some(
                        entries@[i as int].1,
                    ));
                }
                return Some(&entry.1);
            }
            proof {
                assert(!spec_is_text(entries@[i as int].0, key@));
            }
            i = i + 1;
        }
        None
    }

    /// The node's string content, when it is a string.
    pub fn as_text(&self) -> (r: Option<&String>)
        ensures
            match r {
                Some(s) => *self == YamlValue::Str(*s),
                None => !(*self is Str),
            },
    {
        match self {
            YamlValue::Str(s) => Some(s),
            _ => None,
        }
    }
}

/// A string node.
pub fn text_node(s: &str) -> (r: YamlValue)
    ensures
        spec_is_text(r, s@),
{
    YamlValue::Str(s.to_owned())
}

#[verifier::external_type_specification]
#[verifier::external_body]
pub struct ExSerdeYamlValue(serde_yaml::Value);

/// Relies on `serde_yaml::Value`'s variants: rebuilds a parsed document in
/// this crate's model, node for node. A float, or an integer beyond
/// `i64`, becomes its text form; a tagged value loses its tag.
#[verifier::external_body]
fn yaml_to_model(v: &serde_yaml::Value) -> YamlValue {
    match v {
        serde_yaml::Value::Null => YamlValue::Null,
        serde_yaml::Value::Bool(b) => YamlValue::Bool(*b),
        serde_yaml::Value::Number(n) => match n.as_i64() {
            Some(i) => YamlValue::Int(i),
            None => YamlValue::Str(n.to_string()),
        },
        serde_yaml::Value::String(s) => YamlValue::Str(s.clone()),
        serde_yaml::Value::Sequence(items) => YamlValue::List(items.iter().map(yaml_to_model).collect()),
        serde_yaml::Value::Mapping(m) => YamlValue::Mapping(
            m.iter().map(|(k, val)| (yaml_to_model(k), yaml_to_model(val))).collect(),
        ),
        serde_yaml::Value::Tagged(t) => yaml_to_model(&t.value),
    }
}

/// Relies on `serde_yaml::Value`'s constructors: rebuilds a model document
/// as the serializer's value, node for node.
#[verifier::external_body]
fn model_to_yaml(v: &YamlValue) -> serde_yaml::Value {
    match v {
        YamlValue::Null => serde_yaml::Value::Null,
        YamlValue::Bool(b) => serde_yaml::Value::Bool(*b),
        YamlValue::Int(i) => serde_yaml::Value::Number((*i).into()),
        YamlValue::Str(s) => serde_yaml::Value::String(s.clone()),
        YamlValue::List(items) => serde_yaml::Value::Sequence(items.iter().map(model_to_yaml).collect()),
        YamlValue::Mapping(entries) => serde_yaml::Value::Mapping(
            entries.iter().map(|(k, val)| (model_to_yaml(k), model_to_yaml(val))).collect(),
        ),
    }
}

/// Relies on `serde_yaml::from_str::<serde_yaml::Value>`: parses YAML
/// text, successfully exactly when the text is well-formed YAML; the
/// parsed document is handed back through [`yaml_to_model`]'s conversion,
/// the error as its description.
#[verifier::external_body]
pub fn parse_yaml(s: &str) -> (r: Result<YamlValue, String>) {
    match serde_yaml::from_str::<serde_yaml::Value>(s) {
        Ok(v) => Ok(yaml_to_model(&v)),
        Err(e) => Err(e.to_string()),
    }
}

/// Relies on `serde_yaml::to_string`: renders the document (through
/// [`model_to_yaml`]'s conversion) as YAML text, the error as its
/// description.
#[verifier::external_body]
pub fn yaml_to_string(v: &YamlValue) -> (r: Result<String, String>) {
    match serde_yaml::to_string(&model_to_yaml(v)) {
        Ok(s) => Ok(s),
        Err(e) => Err(e.to_string()),
    }
}


/// The entries with the first entry under string key `key` removed; the
/// entries unchanged when no entry carries the key.
pub open spec fn spec_entries_remove(
    entries: Seq<(YamlValue, YamlValue)>,
    key: Seq<char>,
) -> Seq<(YamlValue, YamlValue)>
    decreases entries.len(),
{
    if entries.len() == 0 {
        entries
    } else if spec_is_text(entries[0].0, key) {
        entries.skip(1)
    } else {
        seq![entries[0]] + spec_entries_remove(entries.skip(1), key)
    }
}

/// Removing one key leaves every other key's first value in place.
pub proof fn lemma_entries_remove_get_other(
    entries: Seq<(YamlValue, YamlValue)>,
    key: Seq<char>,
    other: Seq<char>,
)
    requires
        key != other,
    ensures
        spec_entries_get(spec_entries_remove(entries, key), other) == spec_entries_get(
            entries,
            other,
        ),
    decreases entries.len(),
{
    if entries.len() > 0 {
        if spec_is_text(entries[0].0, key) {
        } else {
            lemma_entries_remove_get_other(entries.skip(1), key, other);
            let rem = seq![entries[0]] + spec_entries_remove(entries.skip(1), key);
            assert(rem[0] == entries[0]);
            assert(rem.skip(1) =~= spec_entries_remove(entries.skip(1), key));
        }
    }
}

/// Take the first entry under string key `key` out of a mapping's entry
/// list, handing back the remaining entries and the removed entry.
pub fn remove_entry(entries: Vec<(YamlValue, YamlValue)>, key: &str) -> (r: (
    Vec<(YamlValue, YamlValue)>,
    Option<(YamlValue, YamlValue)>,
))
    ensures
        match r.1 {
            Some(kv) => spec_is_text(kv.0, key@) && spec_entries_get(entries@, key@) == Some(kv.1)
                && r.0@ == spec_entries_remove(entries@, key@),
            None => spec_entries_get(entries@, key@) is None && r.0@ == entries@,
        },
    decreases entries@.len(),
{
    let mut entries = entries;
    if entries.len() == 0 {
        return (entries, None);
    }
    let head = entries.remove(0);
    let ghost orig = entries@.insert(0, head);
    proof {
        assert(orig[0] == head);
        assert(orig.skip(1) =~= entries@);
    }
    let key_string: String = key.to_owned();
    let hit = match &head.0 {
        YamlValue::Str(s) => *s == key_string,
        _ => false,
    };
    if hit {
        proof {
            assert(spec_is_text(orig[0].0, key@));
        }
        return (entries, Some(head));
    }
    proof {
        assert(!spec_is_text(orig[0].0, key@));
    }
    let (mut rest, removed) = remove_entry(entries, key);
    rest.insert(0, head);
    proof {
        if removed is Some {
            assert(rest@ =~= seq![orig[0]] + spec_entries_remove(orig.skip(1), key@));
        } else {
            assert(rest@ =~= orig);
        }
    }
    (rest, removed)
}


/// Look a string key up in an entry list.
pub fn entries_get<'a>(
    entries: &'a Vec<(YamlValue, YamlValue)>,
    key: &str,
) -> (r: Option<&'a YamlValue>)
    ensures
        match r {
            Some(v) => spec_entries_get(entries@, key@) == Some(*v),
            None => spec_entries_get(entries@, key@) is None,
        },
{
    let key_string: String = key.to_owned();
    let mut i: usize = 0;
    proof {
        assert(entries@.skip(0) =~= entries@);
    }
    while i < entries.len()
        invariant
            i <= entries@.len(),
            key_string@ == key@,
            spec_entries_get(entries@, key@) == spec_entries_get(entries@.skip(i as int), key@),
        decreases entries@.len() - i,
    {
        let entry: &(YamlValue, YamlValue) = &entries[i];
        proof {
            assert(entries@.skip(i as int)[0] == entries@[i as int]);
            assert(entries@.skip(i as int).skip(1) =~= entries@.skip(i as int + 1));
        }
        let hit = match &entry.0 {
            YamlValue::Str(s) => *s == key_string,
            _ => false,
        };
        if hit {
            proof {
                assert(spec_is_text(entries@[i as int].0, key@));
                assert(spec_entries_get(entries@.skip(i as int), key@) == Some(
                    entries@[i as int].1,
                ));
            }
            return Some(&entry.1);
        }
        proof {
            assert(!spec_is_text(entries@[i as int].0, key@));
        }
        i = i + 1;
    }
    None
}

} // verus!
