//! Geolocation lookup parsing. The validator fetches one plaintext HTTP
//! response through the established tunnel; this module extracts the one
//! JSON object embedded in that body (first `{` to last `}`), parses it,
//! and maps its fields to a [`LocationInfo`]. Only the JSON parse itself is
//! an outside call; everything around it is verified.

use vstd::prelude::*;

use crate::health::validator::LocationInfo;

verus! {

/// What `serde_json` parses a byte span to, when the span is one JSON
/// object whose values are all strings: the object's fields, keyed by
/// their text. The result is a function of the bytes alone.
pub uninterp spec fn json_string_object(b: Seq<u8>) -> Option<Map<Seq<char>, Seq<char>>>;

/// How a field vector represents a parsed object: every pair is a field of
/// the object, and every field of the object appears.
pub open spec fn fields_match_object(
    v: Seq<(String, String)>,
    m: Map<Seq<char>, Seq<char>>,
) -> bool {
    &&& forall|i: int| 0 <= i < v.len() ==> m.contains_pair(#[trigger] v[i].0@, v[i].1@)
    &&& forall|k: Seq<char>|
        #[trigger] m.dom().contains(k) ==> exists|i: int| 0 <= i < v.len() && v[i].0@ == k
}

/// Relies on `serde_json::from_slice::<HashMap<String, String>>`: the parse
/// is a function of the bytes alone, succeeds exactly when the bytes are
/// one JSON object with only string values, and yields that object's
/// fields. The iteration order of the pairs is whatever the process's hash
/// map produced, so nothing is said about order.
#[verifier::external_body]
fn parse_string_object(bytes: &Vec<u8>) -> (r: Option<Vec<(String, String)>>)
    ensures
        (r is Some) == (json_string_object(bytes@) is Some),
        (r matches Some(v) ==> fields_match_object(v@, json_string_object(bytes@).unwrap())),
{
    let parsed: std::collections::HashMap<String, String> =
        serde_json::from_slice(bytes.as_slice()).ok()?;
    Some(parsed.into_iter().collect())
}

/// Index of the first occurrence of `x`, if any.
pub open spec fn spec_find_byte(s: Seq<u8>, x: u8) -> Option<int>
    decreases s.len(),
{
    if s.len() == 0 {
        None
    } else if s[0] == x {
        Some(0int)
    } else {
        match spec_find_byte(s.skip(1), x) {
            Some(i) => Some(i + 1),
            None => None,
        }
    }
}

proof fn lemma_find_byte_characterization(s: Seq<u8>, x: u8)
    ensures
        match spec_find_byte(s, x) {
            Some(i) => 0 <= i < s.len() && s[i] == x && forall|j: int| 0 <= j < i ==> s[j] != x,
            None => forall|j: int| 0 <= j < s.len() ==> s[j] != x,
        },
    decreases s.len(),
{
    if s.len() > 0 && s[0] != x {
        lemma_find_byte_characterization(s.skip(1), x);
        match spec_find_byte(s.skip(1), x) {
            Some(i) => {
                assert(s.skip(1)[i] == s[i + 1]);
                assert forall|j: int| 0 <= j < i + 1 implies s[j] != x by {
                    if j > 0 {
                        assert(s.skip(1)[j - 1] == s[j]);
                    }
                }
            },
            None => {
                assert forall|j: int| 0 <= j < s.len() implies s[j] != x by {
                    if j > 0 {
                        assert(s.skip(1)[j - 1] == s[j]);
                    }
                }
            },
        }
    }
}

fn find_byte(v: &Vec<u8>, x: u8) -> (r: Option<usize>)
    ensures
        match r {
            Some(i) => spec_find_byte(v@, x) == Some(i as int),
            None => spec_find_byte(v@, x) == None::<int>,
        },
{
    proof {
        lemma_find_byte_characterization(v@, x);
    }
    let mut i: usize = 0;
    while i < v.len()
        invariant
            i <= v.len(),
            forall|j: int| 0 <= j < i ==> v@[j] != x,
            match spec_find_byte(v@, x) {
                Some(k) => 0 <= k < v@.len() && v@[k] == x && forall|j: int|
                    0 <= j < k ==> v@[j] != x,
                None => forall|j: int| 0 <= j < v@.len() ==> v@[j] != x,
            },
        decreases v.len() - i,
    {
        if v[i] == x {
            return Some(i);
        }
        i = i + 1;
    }
    None
}

/// Index of the last occurrence of `x`, if any.
pub open spec fn spec_rfind_byte(s: Seq<u8>, x: u8) -> Option<int>
    decreases s.len(),
{
    if s.len() == 0 {
        None
    } else if s[s.len() - 1] == x {
        Some(s.len() - 1)
    } else {
        spec_rfind_byte(s.take(s.len() - 1), x)
    }
}

fn rfind_byte(v: &Vec<u8>, x: u8) -> (r: Option<usize>)
    ensures
        match r {
            Some(i) => spec_rfind_byte(v@, x) == Some(i as int) && i < v@.len(),
            None => spec_rfind_byte(v@, x) is None,
        },
{
    let mut j: usize = v.len();
    proof {
        assert(v@.take(v@.len() as int) =~= v@);
    }
    while j > 0
        invariant
            j <= v.len(),
            spec_rfind_byte(v@, x) == spec_rfind_byte(v@.take(j as int), x),
        decreases j,
    {
        if v[j - 1] == x {
            assert(v@.take(j as int)[j - 1] == x);
            return Some(j - 1);
        }
        proof {
            assert(v@.take(j as int).take(j - 1) =~= v@.take(j - 1));
            assert(v@.take(j as int)[j - 1] == v@[j - 1]);
        }
        j = j - 1;
    }
    None
}

/// The span from the first `{` to the last `}`, when both exist in that
/// order: the one place a JSON object can sit in the body.
pub open spec fn spec_extract_object(b: Seq<u8>) -> Option<Seq<u8>> {
    match (spec_find_byte(b, 0x7B), spec_rfind_byte(b, 0x7D)) {
        (Some(i), Some(j)) => if i <= j {
            Some(b.subrange(i, j + 1))
        } else {
            None
        },
        _ => None,
    }
}

/// Cut the JSON object span out of an HTTP body: from the first `{` to the
/// last `}` inclusive. Returns nothing when either brace is missing or the
/// last `}` precedes the first `{`.
pub fn extract_object(body: &Vec<u8>) -> (r: Option<Vec<u8>>)
    ensures
        match r {
            Some(span) => spec_extract_object(body@) == Some(span@),
            None => spec_extract_object(body@) is None,
        },
{
    let start = match find_byte(body, 0x7B) {
        Some(i) => i,
        None => {
            return None;
        },
    };
    let end = match rfind_byte(body, 0x7D) {
        Some(j) => j,
        None => {
            return None;
        },
    };
    if start > end {
        return None;
    }
    proof {
        lemma_find_byte_characterization(body@, 0x7B);
    }
    let blen: usize = body.len();
    let mut span: Vec<u8> = Vec::new();
    let mut i: usize = start;
    while i <= end
        invariant
            start <= i <= end + 1,
            end < blen,
            body@.len() == blen,
            span@ == body@.subrange(start as int, i as int),
        decreases end + 1 - i,
    {
        span.push(body[i]);
        i = i + 1;
        assert(span@ =~= body@.subrange(start as int, i as int));
    }
    Some(span)
}

/// The value of the first field named `k`, scanning left to right.
pub open spec fn spec_assoc(fields: Seq<(String, String)>, k: Seq<char>) -> Option<Seq<char>>
    decreases fields.len(),
{
    if fields.len() == 0 {
        None
    } else if fields[0].0@ == k {
        Some(fields[0].1@)
    } else {
        spec_assoc(fields.skip(1), k)
    }
}

/// The value of the field named `k`, or the empty string when absent.
pub open spec fn spec_assoc_or_empty(fields: Seq<(String, String)>, k: Seq<char>) -> Seq<char> {
    match spec_assoc(fields, k) {
        Some(v) => v,
        None => Seq::empty(),
    }
}

proof fn lemma_assoc_some(fields: Seq<(String, String)>, k: Seq<char>, val: Seq<char>)
    requires
        spec_assoc(fields, k) == Some(val),
    ensures
        exists|i: int| 0 <= i < fields.len() && #[trigger] fields[i].0@ == k && fields[i].1@
            == val,
    decreases fields.len(),
{
    if fields.len() > 0 && fields[0].0@ != k {
        lemma_assoc_some(fields.skip(1), k, val);
        let i = choose|i: int|
            0 <= i < fields.skip(1).len() && #[trigger] fields.skip(1)[i].0@ == k && fields.skip(
                1,
            )[i].1@ == val;
        assert(fields[i + 1].0@ == k && fields[i + 1].1@ == val);
    }
}

proof fn lemma_assoc_none(fields: Seq<(String, String)>, k: Seq<char>)
    requires
        spec_assoc(fields, k) is None,
    ensures
        forall|i: int| 0 <= i < fields.len() ==> #[trigger] fields[i].0@ != k,
    decreases fields.len(),
{
    if fields.len() > 0 {
        lemma_assoc_none(fields.skip(1), k);
        assert forall|i: int| 0 <= i < fields.len() implies #[trigger] fields[i].0@ != k by {
            if i > 0 {
                assert(fields.skip(1)[i - 1] == fields[i]);
            }
        }
    }
}

/// When the field vector represents the object `m`, the scan agrees with
/// the object: it finds exactly the fields of `m`, with their values.
proof fn lemma_assoc_matches_object(
    fields: Seq<(String, String)>,
    m: Map<Seq<char>, Seq<char>>,
    k: Seq<char>,
)
    requires
        fields_match_object(fields, m),
    ensures
        match spec_assoc(fields, k) {
            Some(val) => m.contains_pair(k, val),
            None => !m.dom().contains(k),
        },
{
    match spec_assoc(fields, k) {
        Some(val) => {
            lemma_assoc_some(fields, k, val);
        },
        None => {
            lemma_assoc_none(fields, k);
            if m.dom().contains(k) {
                let i = choose|i: int| 0 <= i < fields.len() && fields[i].0@ == k;
                assert(fields[i].0@ != k);
            }
        },
    }
}

/// Look a field up by name.
fn lookup_field(fields: &Vec<(String, String)>, key: &str) -> (r: Option<String>)
    ensures
        match r {
            Some(val) => spec_assoc(fields@, key@) == Some(val@),
            None => spec_assoc(fields@, key@) is None,
        },
{
    let key_string: String = key.to_owned();
    let mut i: usize = 0;
    proof {
        assert(fields@.skip(0) =~= fields@);
    }
    while i < fields.len()
        invariant
            i <= fields.len(),
            key_string@ == key@,
            spec_assoc(fields@, key@) == spec_assoc(fields@.skip(i as int), key@),
        decreases fields.len() - i,
    {
        let pair: &(String, String) = &fields[i];
        if pair.0 == key_string {
            assert(fields@.skip(i as int)[0] == fields@[i as int]);
            return Some(pair.1.clone());
        }
        proof {
            assert(fields@.skip(i as int)[0] == fields@[i as int]);
            assert(fields@.skip(i as int).skip(1) =~= fields@.skip(i as int + 1));
        }
        i = i + 1;
    }
    None
}

/// Look a field up by name, the empty string when absent.
fn field_or_empty(fields: &Vec<(String, String)>, key: &str) -> (r: String)
    ensures
        r@ == spec_assoc_or_empty(fields@, key@),
{
    match lookup_field(fields, key) {
        Some(val) => val,
        None => String::new(),
    }
}

/// The exit IP and geolocation record in a geolocation-service HTTP body,
/// byte-exact per the service's JSON: the one object between the first `{`
/// and the last `}` is decoded, and when its `status` field is `success`,
/// the result carries its `query` field as the exit IP and its seven
/// descriptive fields verbatim, each empty when absent. Any other body
/// yields nothing, and the lookup stays best-effort.
pub fn parse_geo_response(body: &Vec<u8>) -> (r: Option<(String, LocationInfo)>)
    ensures
        match spec_extract_object(body@) {
            Some(span) => match json_string_object(span) {
                Some(m) => {
                    if m.contains_pair("status"@, "success"@) {
                        match r {
                            Some(p) => p.0@ == spec_object_field(m, "query"@) && p.1.country@
                                == spec_object_field(m, "country"@) && p.1.country_code@
                                == spec_object_field(m, "countryCode"@) && p.1.region@
                                == spec_object_field(m, "regionName"@) && p.1.city@
                                == spec_object_field(m, "city"@) && p.1.timezone@
                                == spec_object_field(m, "timezone"@) && p.1.isp@
                                == spec_object_field(m, "isp"@),
                            None => false,
                        }
                    } else {
                        r is None
                    }
                },
                None => r is None,
            },
            None => r is None,
        },
{
    let span = match extract_object(body) {
        Some(s) => s,
        None => {
            return None;
        },
    };
    let fields = match parse_string_object(&span) {
        Some(f) => f,
        None => {
            return None;
        },
    };
    let ghost m = json_string_object(span@).unwrap();
    proof {
        lemma_assoc_matches_object(fields@, m, "status"@);
        lemma_assoc_matches_object(fields@, m, "query"@);
        lemma_assoc_matches_object(fields@, m, "country"@);
        lemma_assoc_matches_object(fields@, m, "countryCode"@);
        lemma_assoc_matches_object(fields@, m, "regionName"@);
        lemma_assoc_matches_object(fields@, m, "city"@);
        lemma_assoc_matches_object(fields@, m, "timezone"@);
        lemma_assoc_matches_object(fields@, m, "isp"@);
    }
    let status = match lookup_field(&fields, "status") {
        Some(s) => s,
        None => {
            return None;
        },
    };
    let success: String = String::from_str("success");
    if !(status == success) {
        return None;
    }
    let ip = field_or_empty(&fields, "query");
    let location = LocationInfo {
        country: field_or_empty(&fields, "country"),
        country_code: field_or_empty(&fields, "countryCode"),
        region: field_or_empty(&fields, "regionName"),
        city: field_or_empty(&fields, "city"),
        timezone: field_or_empty(&fields, "timezone"),
        isp: field_or_empty(&fields, "isp"),
    };
    Some((ip, location))
}

/// The value of field `k` in the object, or the empty string when absent.
pub open spec fn spec_object_field(m: Map<Seq<char>, Seq<char>>, k: Seq<char>) -> Seq<char> {
    if m.dom().contains(k) {
        m[k]
    } else {
        Seq::empty()
    }
}

/// The fixed plaintext request the validator tunnels to the geolocation
/// service: a minimal `GET` with `Connection: close`, asking for exactly
/// the fields [`parse_geo_response`] decodes.
pub fn geo_http_request() -> (r: String)
    ensures
        r@
            == "GET /json?fields=status,message,country,countryCode,region,regionName,city,timezone,isp,query HTTP/1.1\r\nHost: ip-api.com\r\nConnection: close\r\nUser-Agent: clash-chain-patcher/1.0\r\n\r\n"@,
{
    String::from_str(
        "GET /json?fields=status,message,country,countryCode,region,regionName,city,timezone,isp,query HTTP/1.1\r\nHost: ip-api.com\r\nConnection: close\r\nUser-Agent: clash-chain-patcher/1.0\r\n\r\n",
    )
}

} // verus!
