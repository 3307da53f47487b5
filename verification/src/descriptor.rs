//! The request descriptor and its normalizer.
//!
//! A raw request description may leave headers and params absent and may
//! repeat a header name; normalization defaults absent mappings to empty
//! ones and resolves repeated names so that the last write wins.

use vstd::prelude::*;
use crate::json::{JsonValue, json_wf};

verus! {

/// A raw request description, as a caller supplies it: headers and params
/// may be absent, and header names may repeat.
pub struct RawRequest {
    pub method: String,
    pub url: String,
    pub headers: Option<Vec<(String, String)>>,
    pub params: Option<Vec<(String, String)>>,
    pub body: Option<JsonValue>,
    pub timeout_ms: Option<u64>,
}

/// The canonical executable form of a request: headers and params are
/// present and hold no duplicate names. The engine never mutates it.
pub struct RequestDescriptor {
    pub method: String,
    pub url: String,
    pub headers: Vec<(String, String)>,
    pub params: Vec<(String, String)>,
    pub body: Option<JsonValue>,
    pub timeout_ms: Option<u64>,
}

impl RequestDescriptor {
    /// A descriptor is well formed when its body, if any, is a well-formed
    /// JSON value.
    pub open spec fn wf(self) -> bool {
        match self.body {
            Some(b) => json_wf(b),
            None => true,
        }
    }
}

/// The value that a name-value list associates with `k` when the last
/// written value wins, or `None` when the list has no entry for `k`.
pub open spec fn last_value(s: Seq<(String, String)>, k: Seq<char>) -> Option<Seq<char>>
    decreases s.len(),
{
    if s.len() == 0 {
        None
    } else if s[s.len() - 1].0@ == k {
        Some(s[s.len() - 1].1@)
    } else {
        last_value(s.subrange(0, s.len() - 1), k)
    }
}

/// No two entries share a name.
pub open spec fn distinct_keys(s: Seq<(String, String)>) -> bool {
    forall|i: int, j: int| 0 <= i < j < s.len() ==> s[i].0@ != s[j].0@
}

proof fn lemma_last_value_push(s: Seq<(String, String)>, p: (String, String), k: Seq<char>)
    ensures
        last_value(s.push(p), k) == if p.0@ == k {
            Some(p.1@)
        } else {
            last_value(s, k)
        },
{
    let t = s.push(p);
    assert(t[t.len() - 1] == p);
    assert(t.subrange(0, t.len() - 1) =~= s);
}

proof fn lemma_last_value_update(s: Seq<(String, String)>, j: int, p: (String, String), k: Seq<
    char,
>)
    requires
        0 <= j < s.len(),
        distinct_keys(s),
        s[j].0@ == p.0@,
    ensures
        last_value(s.update(j, p), k) == if p.0@ == k {
            Some(p.1@)
        } else {
            last_value(s, k)
        },
    decreases s.len(),
{
    let t = s.update(j, p);
    if j == s.len() - 1 {
        assert(t.subrange(0, t.len() - 1) =~= s.subrange(0, s.len() - 1));
    } else {
        assert(t[t.len() - 1] == s[s.len() - 1]);
        if s[s.len() - 1].0@ != k {
            assert(t.subrange(0, t.len() - 1) =~= s.subrange(0, s.len() - 1).update(j, p));
            assert(distinct_keys(s.subrange(0, s.len() - 1)));
            lemma_last_value_update(s.subrange(0, s.len() - 1), j, p, k);
        }
    }
}

/// Resolves repeated names in a name-value list: the result holds each name
/// once, bound to the value written last.
pub fn dedup_last_wins(src: &Vec<(String, String)>) -> (r: Vec<(String, String)>)
    ensures
        distinct_keys(r@),
        forall|k: Seq<char>| #[trigger] last_value(r@, k) == last_value(src@, k),
{
    let mut out: Vec<(String, String)> = Vec::new();
    let n = src.len();
    let mut i: usize = 0;
    while i < n
        invariant
            0 <= i <= n == src@.len(),
            distinct_keys(out@),
            forall|k: Seq<char>| #[trigger] last_value(out@, k) == last_value(
                src@.subrange(0, i as int),
                k,
            ),
        decreases n - i,
    {
        let key = &src[i].0;
        let val = &src[i].1;
        let m = out.len();
        let mut j: usize = 0;
        let mut found: bool = false;
        let mut at: usize = 0;
        while j < m
            invariant
                0 <= j <= m == out@.len(),
                !found ==> forall|q: int| 0 <= q < j ==> out@[q].0@ != key@,
                found ==> at < out@.len() && out@[at as int].0@ == key@,
            decreases m - j,
        {
            if out[j].0 == *key {
                found = true;
                at = j;
                j = m;
            } else {
                j = j + 1;
            }
        }
        proof {
            assert(src@.subrange(0, i + 1 as int).subrange(0, i as int) =~= src@.subrange(
                0,
                i as int,
            ));
            assert(src@.subrange(0, i + 1 as int) =~= src@.subrange(0, i as int).push(
                src@[i as int],
            ));
        }
        let ghost pre = out@;
        let pair = (key.clone(), val.clone());
        if found {
            out[at] = pair;
            proof {
                assert(out@ == pre.update(at as int, pair));
                assert forall|k: Seq<char>| #[trigger] last_value(out@, k) == last_value(
                    src@.subrange(0, i + 1 as int),
                    k,
                ) by {
                    lemma_last_value_update(pre, at as int, pair, k);
                    lemma_last_value_push(src@.subrange(0, i as int), src@[i as int], k);
                }
            }
        } else {
            out.push(pair);
            proof {
                assert(out@ == pre.push(pair));
                assert forall|k: Seq<char>| #[trigger] last_value(out@, k) == last_value(
                    src@.subrange(0, i + 1 as int),
                    k,
                ) by {
                    lemma_last_value_push(pre, pair, k);
                    lemma_last_value_push(src@.subrange(0, i as int), src@[i as int], k);
                }
            }
        }
        i = i + 1;
    }
    proof {
        assert(src@.subrange(0, n as int) =~= src@);
    }
    out
}

/// Copies a name-value list.
pub fn clone_pairs(src: &Vec<(String, String)>) -> (r: Vec<(String, String)>)
    ensures
        r@ == src@,
{
    let mut out: Vec<(String, String)> = Vec::new();
    let n = src.len();
    let mut i: usize = 0;
    while i < n
        invariant
            0 <= i <= n == src@.len(),
            out@ =~= src@.subrange(0, i as int),
        decreases n - i,
    {
        let pair = (src[i].0.clone(), src[i].1.clone());
        proof {
            assert(pair == src@[i as int]);
            assert(src@.subrange(0, i + 1 as int) =~= src@.subrange(0, i as int).push(
                src@[i as int],
            ));
        }
        out.push(pair);
        i = i + 1;
    }
    proof {
        assert(src@.subrange(0, n as int) =~= src@);
    }
    out
}

/// The members of a JSON object whose values are strings, in order; members
/// with any other value are skipped.
pub open spec fn string_members(fields: Seq<(String, JsonValue)>) -> Seq<(String, String)>
    decreases fields,
{
    if fields.len() == 0 {
        Seq::empty()
    } else {
        let rest = string_members(fields.subrange(0, fields.len() - 1));
        match fields[fields.len() - 1].1 {
            JsonValue::Str(s) => rest.push((fields[fields.len() - 1].0, s)),
            _ => rest,
        }
    }
}

/// Extracts a header list from a stored JSON value: the string-valued
/// members of an object, skipping members of any other shape; any value
/// that is not an object yields no headers.
pub fn headers_from_json(v: &JsonValue) -> (r: Vec<(String, String)>)
    ensures
        r@ == match *v {
            JsonValue::Object(fields) => string_members(fields@),
            _ => Seq::<(String, String)>::empty(),
        },
{
    let mut out: Vec<(String, String)> = Vec::new();
    match v {
        JsonValue::Object(fields) => {
            let n = fields.len();
            let mut i: usize = 0;
            while i < n
                invariant
                    0 <= i <= n == fields@.len(),
                    out@ =~= string_members(fields@.subrange(0, i as int)),
                decreases n - i,
            {
                proof {
                    assert(fields@.subrange(0, i + 1 as int).subrange(0, i as int)
                        =~= fields@.subrange(0, i as int));
                    assert(fields@.subrange(0, i + 1 as int)[i as int] == fields@[i as int]);
                }
                match &fields[i].1 {
                    JsonValue::Str(s) => {
                        out.push((fields[i].0.clone(), s.clone()));
                    },
                    _ => {},
                }
                i = i + 1;
            }
            proof {
                assert(fields@.subrange(0, n as int) =~= fields@);
            }
        },
        _ => {},
    }
    out
}

/// Normalizes a raw request description into its canonical form: absent
/// header and param mappings become empty ones, repeated names are resolved
/// so that the last write wins, and method, url, body and timeout pass
/// through unchanged.
pub fn normalize(raw: RawRequest) -> (r: RequestDescriptor)
    ensures
        r.method == raw.method,
        r.url == raw.url,
        r.body == raw.body,
        r.timeout_ms == raw.timeout_ms,
        distinct_keys(r.headers@),
        distinct_keys(r.params@),
        forall|k: Seq<char>| #[trigger] last_value(r.headers@, k) == match raw.headers {
            Some(h) => last_value(h@, k),
            None => None,
        },
        forall|k: Seq<char>| #[trigger] last_value(r.params@, k) == match raw.params {
            Some(p) => last_value(p@, k),
            None => None,
        },
{
    let headers = match &raw.headers {
        Some(h) => dedup_last_wins(h),
        None => Vec::new(),
    };
    let params = match &raw.params {
        Some(p) => dedup_last_wins(p),
        None => Vec::new(),
    };
    RequestDescriptor {
        method: raw.method,
        url: raw.url,
        headers,
        params,
        body: raw.body,
        timeout_ms: raw.timeout_ms,
    }
}

} // verus!
