//! A tagged JSON-shaped value type for request bodies, with a verified
//! encoder.
//!
//! Arbitrary user bodies carry no schema; a value is only checked for
//! well-formedness (its number literals must follow the JSON number grammar)
//! at serialization time. Numbers keep their literal text, so any JSON
//! number round-trips without loss.

use vstd::prelude::*;
use crate::text::push_char;

verus! {

/// An arbitrary JSON-shaped value: null, boolean, number (kept as its
/// literal text), string, array or object.
pub enum JsonValue {
    Null,
    Bool(bool),
    Num(String),
    Str(String),
    Array(Vec<JsonValue>),
    Object(Vec<(String, JsonValue)>),
}

pub open spec fn is_digit(c: char) -> bool {
    '0' <= c && c <= '9'
}

/// The first position at or after `i` that does not hold a digit.
pub open spec fn digit_run_end(s: Seq<char>, i: int) -> int
    decreases s.len() - i,
    when 0 <= i <= s.len()
{
    if i == s.len() {
        i
    } else if is_digit(s[i]) {
        digit_run_end(s, i + 1)
    } else {
        i
    }
}

pub proof fn lemma_digit_run_end_bounds(s: Seq<char>, i: int)
    requires
        0 <= i <= s.len(),
    ensures
        i <= digit_run_end(s, i) <= s.len(),
    decreases s.len() - i,
{
    if i < s.len() && is_digit(s[i]) {
        lemma_digit_run_end_bounds(s, i + 1);
    }
}

/// The JSON number grammar: an optional minus sign, an integer part that is
/// `0` or starts with a nonzero digit, an optional fraction `.` followed by
/// at least one digit, and an optional exponent `e`/`E` with an optional
/// sign and at least one digit.
pub open spec fn is_json_number(s: Seq<char>) -> bool {
    let i0: int = if s.len() > 0 && s[0] == '-' {
        1
    } else {
        0
    };
    if i0 >= s.len() || !is_digit(s[i0]) {
        false
    } else {
        let i1: int = if s[i0] == '0' {
            i0 + 1
        } else {
            digit_run_end(s, i0)
        };
        let i2: int = if i1 < s.len() && s[i1] == '.' {
            if i1 + 1 < s.len() && is_digit(s[i1 + 1]) {
                digit_run_end(s, i1 + 1)
            } else {
                -1
            }
        } else {
            i1
        };
        if i2 < 0 {
            false
        } else {
            let i3: int = if i2 < s.len() && (s[i2] == 'e' || s[i2] == 'E') {
                let ie: int = if i2 + 1 < s.len() && (s[i2 + 1] == '+' || s[i2 + 1] == '-') {
                    i2 + 2
                } else {
                    i2 + 1
                };
                if ie < s.len() && is_digit(s[ie]) {
                    digit_run_end(s, ie)
                } else {
                    -1
                }
            } else {
                i2
            };
            i3 == s.len()
        }
    }
}

/// A value is well formed when every number literal in it follows the JSON
/// number grammar.
pub open spec fn json_wf(v: JsonValue) -> bool
    decreases v,
{
    match v {
        JsonValue::Null => true,
        JsonValue::Bool(_) => true,
        JsonValue::Num(s) => is_json_number(s@),
        JsonValue::Str(_) => true,
        JsonValue::Array(elems) => forall|i: int|
            0 <= i < elems@.len() ==> json_wf(#[trigger] elems@[i]),
        JsonValue::Object(fields) => forall|i: int|
            0 <= i < fields@.len() ==> json_wf(#[trigger] fields@[i].1),
    }
}

fn digit(c: char) -> (r: bool)
    ensures
        r == is_digit(c),
{
    '0' <= c && c <= '9'
}

/// Scans past a run of digits, starting at `i`.
fn scan_digits(s: &str, i: usize) -> (r: usize)
    requires
        i <= s@.len(),
        s@.len() <= usize::MAX,
    ensures
        r == digit_run_end(s@, i as int),
        i <= r <= s@.len(),
{
    let n = s.unicode_len();
    let mut cur = i;
    while cur < n && digit(s.get_char(cur))
        invariant
            i <= cur <= n == s@.len(),
            digit_run_end(s@, i as int) == digit_run_end(s@, cur as int),
        decreases n - cur,
    {
        cur = cur + 1;
    }
    proof {
        lemma_digit_run_end_bounds(s@, cur as int);
    }
    cur
}

/// Decides whether `s` is a well-formed JSON number literal.
pub fn check_number(s: &str) -> (r: bool)
    ensures
        r == is_json_number(s@),
{
    let n = s.unicode_len();
    let i0: usize = if n > 0 && s.get_char(0) == '-' {
        1
    } else {
        0
    };
    if i0 >= n || !digit(s.get_char(i0)) {
        return false;
    }
    let i1: usize = if s.get_char(i0) == '0' {
        i0 + 1
    } else {
        scan_digits(s, i0)
    };
    let i2: usize = if i1 < n && s.get_char(i1) == '.' {
        if i1 + 1 < n && digit(s.get_char(i1 + 1)) {
            scan_digits(s, i1 + 1)
        } else {
            return false;
        }
    } else {
        i1
    };
    let i3: usize = if i2 < n && (s.get_char(i2) == 'e' || s.get_char(i2) == 'E') {
        let ie: usize = if i2 + 1 < n && (s.get_char(i2 + 1) == '+' || s.get_char(i2 + 1) == '-') {
            i2 + 2
        } else {
            i2 + 1
        };
        if ie < n && digit(s.get_char(ie)) {
            scan_digits(s, ie)
        } else {
            return false;
        }
    } else {
        i2
    };
    i3 == n
}

/// Decides whether every number literal in `v` is well formed.
pub fn json_wf_check(v: &JsonValue) -> (r: bool)
    ensures
        r == json_wf(*v),
    decreases *v,
{
    match v {
        JsonValue::Null => true,
        JsonValue::Bool(_) => true,
        JsonValue::Num(s) => check_number(s.as_str()),
        JsonValue::Str(_) => true,
        JsonValue::Array(elems) => {
            let n = elems.len();
            let mut i: usize = 0;
            let mut ok = true;
            while i < n
                invariant
                    0 <= i <= n == elems@.len(),
                    *v == JsonValue::Array(*elems),
                    ok == forall|j: int| 0 <= j < i ==> json_wf(#[trigger] elems@[j]),
                decreases n - i,
            {
                proof {
                    assert(*elems == v->Array_0);
                    assert(decreases_to!(*v => v->Array_0));
                    assert(decreases_to!(*elems => elems@[i as int]));
                }
                if !json_wf_check(&elems[i]) {
                    ok = false;
                }
                i = i + 1;
            }
            ok
        },
        JsonValue::Object(fields) => {
            let n = fields.len();
            let mut i: usize = 0;
            let mut ok = true;
            while i < n
                invariant
                    0 <= i <= n == fields@.len(),
                    *v == JsonValue::Object(*fields),
                    ok == forall|j: int| 0 <= j < i ==> json_wf(#[trigger] fields@[j].1),
                decreases n - i,
            {
                proof {
                    assert(*fields == v->Object_0);
                    assert(decreases_to!(*v => v->Object_0));
                    assert(decreases_to!(*fields => fields@[i as int]));
                    assert(decreases_to!(fields@[i as int] => fields@[i as int].1));
                }
                if !json_wf_check(&fields[i].1) {
                    ok = false;
                }
                i = i + 1;
            }
            ok
        },
    }
}

/// The lower-case hex digit character for `d`, which must be below sixteen.
pub open spec fn hex_digit(d: int) -> char {
    if d < 10 {
        crate::text::dec_digit(d)
    } else if d == 10 {
        'a'
    } else if d == 11 {
        'b'
    } else if d == 12 {
        'c'
    } else if d == 13 {
        'd'
    } else if d == 14 {
        'e'
    } else {
        'f'
    }
}

/// How one character is written inside a JSON string literal: quotes and
/// backslashes get a backslash escape, control characters a `\u00XX` escape,
/// and every other character stands for itself.
pub open spec fn escape_char(c: char) -> Seq<char> {
    if c == '"' {
        seq!['\\', '"']
    } else if c == '\\' {
        seq!['\\', '\\']
    } else if (c as int) < 32 {
        seq!['\\', 'u', '0', '0', hex_digit(c as int / 16), hex_digit(c as int % 16)]
    } else {
        seq![c]
    }
}

/// The body of a JSON string literal for the character sequence `s`.
pub open spec fn escape_text(s: Seq<char>) -> Seq<char>
    decreases s.len(),
{
    if s.len() == 0 {
        Seq::empty()
    } else {
        escape_text(s.subrange(0, s.len() - 1)) + escape_char(s[s.len() - 1])
    }
}

/// A complete JSON string literal: the escaped text between double quotes.
pub open spec fn quoted_text(s: Seq<char>) -> Seq<char> {
    seq!['"'] + escape_text(s) + seq!['"']
}

/// The canonical compact JSON rendering of a value: no added whitespace,
/// array elements and object members separated by single commas, object
/// keys and values separated by single colons.
pub open spec fn json_text(v: JsonValue) -> Seq<char>
    decreases v,
{
    match v {
        JsonValue::Null => "null"@,
        JsonValue::Bool(b) => if b {
            "true"@
        } else {
            "false"@
        },
        JsonValue::Num(s) => s@,
        JsonValue::Str(s) => quoted_text(s@),
        JsonValue::Array(elems) => seq!['['] + items_text(elems@) + seq![']'],
        JsonValue::Object(fields) => seq!['{'] + members_text(fields@) + seq!['}'],
    }
}

/// The comma-separated renderings of the elements of an array.
pub open spec fn items_text(elems: Seq<JsonValue>) -> Seq<char>
    decreases elems,
{
    if elems.len() == 0 {
        Seq::empty()
    } else if elems.len() == 1 {
        json_text(elems[0])
    } else {
        items_text(elems.subrange(0, elems.len() - 1)) + seq![','] + json_text(
            elems[elems.len() - 1],
        )
    }
}

/// The comma-separated renderings of the members of an object.
pub open spec fn members_text(fields: Seq<(String, JsonValue)>) -> Seq<char>
    decreases fields,
{
    if fields.len() == 0 {
        Seq::empty()
    } else if fields.len() == 1 {
        quoted_text(fields[0].0@) + seq![':'] + json_text(fields[0].1)
    } else {
        members_text(fields.subrange(0, fields.len() - 1)) + seq![','] + quoted_text(
            fields[fields.len() - 1].0@,
        ) + seq![':'] + json_text(fields[fields.len() - 1].1)
    }
}

fn push_hex_digit(out: &mut String, d: u32)
    requires
        d < 16,
    ensures
        final(out)@ == old(out)@.push(hex_digit(d as int)),
{
    let c: char = if d == 0 {
        '0'
    } else if d == 1 {
        '1'
    } else if d == 2 {
        '2'
    } else if d == 3 {
        '3'
    } else if d == 4 {
        '4'
    } else if d == 5 {
        '5'
    } else if d == 6 {
        '6'
    } else if d == 7 {
        '7'
    } else if d == 8 {
        '8'
    } else if d == 9 {
        '9'
    } else if d == 10 {
        'a'
    } else if d == 11 {
        'b'
    } else if d == 12 {
        'c'
    } else if d == 13 {
        'd'
    } else if d == 14 {
        'e'
    } else {
        'f'
    };
    push_char(out, c);
}

fn push_escaped_char(out: &mut String, c: char)
    ensures
        final(out)@ == old(out)@ + escape_char(c),
{
    if c == '"' {
        push_char(out, '\\');
        push_char(out, '"');
    } else if c == '\\' {
        push_char(out, '\\');
        push_char(out, '\\');
    } else if (c as u32) < 32 {
        push_char(out, '\\');
        push_char(out, 'u');
        push_char(out, '0');
        push_char(out, '0');
        let code = c as u32;
        push_hex_digit(out, code / 16);
        push_hex_digit(out, code % 16);
    } else {
        push_char(out, c);
    }
    assert(final(out)@ =~= old(out)@ + escape_char(c));
}

fn push_quoted(out: &mut String, s: &String)
    ensures
        final(out)@ == old(out)@ + quoted_text(s@),
{
    push_char(out, '"');
    let n = s.as_str().unicode_len();
    let mut i: usize = 0;
    while i < n
        invariant
            0 <= i <= n == s@.len(),
            out@ == old(out)@.push('"') + escape_text(s@.subrange(0, i as int)),
        decreases n - i,
    {
        let c = s.as_str().get_char(i);
        push_escaped_char(out, c);
        proof {
            assert(s@.subrange(0, i + 1 as int).subrange(0, i as int) =~= s@.subrange(
                0,
                i as int,
            ));
            assert(escape_text(s@.subrange(0, i + 1 as int)) =~= escape_text(
                s@.subrange(0, i as int),
            ) + escape_char(s@[i as int]));
        }
        i = i + 1;
    }
    push_char(out, '"');
    proof {
        assert(s@.subrange(0, n as int) =~= s@);
        assert(final(out)@ =~= old(out)@ + quoted_text(s@));
    }
}

/// Renders `v` as compact JSON text.
pub fn encode_json(v: &JsonValue) -> (r: String)
    ensures
        r@ == json_text(*v),
{
    let mut out = String::new();
    push_json(&mut out, v);
    proof {
        assert(out@ =~= json_text(*v));
    }
    out
}

fn push_json(out: &mut String, v: &JsonValue)
    ensures
        final(out)@ == old(out)@ + json_text(*v),
    decreases *v,
{
    match v {
        JsonValue::Null => {
            out.append("null");
        },
        JsonValue::Bool(b) => {
            if *b {
                out.append("true");
            } else {
                out.append("false");
            }
        },
        JsonValue::Num(s) => {
            out.append(s.as_str());
        },
        JsonValue::Str(s) => {
            push_quoted(out, s);
        },
        JsonValue::Array(elems) => {
            push_char(out, '[');
            let n = elems.len();
            let mut i: usize = 0;
            while i < n
                invariant
                    0 <= i <= n == elems@.len(),
                    *v == JsonValue::Array(*elems),
                    out@ == old(out)@.push('[') + items_text(elems@.subrange(0, i as int)),
                decreases n - i,
            {
                if i > 0 {
                    push_char(out, ',');
                }
                proof {
                    assert(*elems == v->Array_0);
                    assert(decreases_to!(*v => v->Array_0));
                    assert(decreases_to!(*elems => elems@[i as int]));
                }
                push_json(out, &elems[i]);
                proof {
                    lemma_items_text_step(elems@, i as int);
                }
                i = i + 1;
            }
            push_char(out, ']');
            proof {
                assert(elems@.subrange(0, n as int) =~= elems@);
            }
        },
        JsonValue::Object(fields) => {
            push_char(out, '{');
            let n = fields.len();
            let mut i: usize = 0;
            while i < n
                invariant
                    0 <= i <= n == fields@.len(),
                    *v == JsonValue::Object(*fields),
                    out@ == old(out)@.push('{') + members_text(fields@.subrange(0, i as int)),
                decreases n - i,
            {
                if i > 0 {
                    push_char(out, ',');
                }
                push_quoted(out, &fields[i].0);
                push_char(out, ':');
                proof {
                    assert(*fields == v->Object_0);
                    assert(decreases_to!(*v => v->Object_0));
                    assert(decreases_to!(*fields => fields@[i as int]));
                    assert(decreases_to!(fields@[i as int] => fields@[i as int].1));
                }
                push_json(out, &fields[i].1);
                proof {
                    lemma_members_text_step(fields@, i as int);
                }
                i = i + 1;
            }
            push_char(out, '}');
            proof {
                assert(fields@.subrange(0, n as int) =~= fields@);
            }
        },
    }
    assert(final(out)@ =~= old(out)@ + json_text(*v));
}

proof fn lemma_items_text_step(elems: Seq<JsonValue>, i: int)
    requires
        0 <= i < elems.len(),
    ensures
        items_text(elems.subrange(0, i + 1)) == if i == 0 {
            json_text(elems[0])
        } else {
            items_text(elems.subrange(0, i)) + seq![','] + json_text(elems[i])
        },
{
    let t = elems.subrange(0, i + 1);
    if i == 0 {
        assert(items_text(t) == json_text(t[0]));
        assert(t[0] == elems[0]);
    } else {
        assert(t.subrange(0, i) =~= elems.subrange(0, i));
        assert(t[i] == elems[i]);
    }
}

proof fn lemma_members_text_step(fields: Seq<(String, JsonValue)>, i: int)
    requires
        0 <= i < fields.len(),
    ensures
        members_text(fields.subrange(0, i + 1)) == if i == 0 {
            quoted_text(fields[0].0@) + seq![':'] + json_text(fields[0].1)
        } else {
            members_text(fields.subrange(0, i)) + seq![','] + quoted_text(fields[i].0@)
                + seq![':'] + json_text(fields[i].1)
        },
{
    let t = fields.subrange(0, i + 1);
    if i == 0 {
        assert(t[0] == fields[0]);
    } else {
        assert(t.subrange(0, i) =~= fields.subrange(0, i));
        assert(t[i] == fields[i]);
    }
}

} // verus!
