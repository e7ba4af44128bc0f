//! JSON framing of request bodies.
//!
//! Objects and arrays are written compactly, field names exactly as the
//! server spells them, an absent optional field left out. String literals
//! come from the serializer's own quoting.
use vstd::prelude::*;

use crate::text::{decimal, decimal_string, json_quote, json_quoted};

verus! {

/// `"key":value`
pub open spec fn json_field(key: Seq<char>, value: Seq<char>) -> Seq<char> {
    "\""@ + key + "\":"@ + value
}

/// A field whose value is a JSON string.
pub open spec fn json_text_field(key: Seq<char>, s: Seq<char>) -> Seq<char> {
    json_field(key, json_quoted(s))
}

/// The JSON literal of a boolean.
pub open spec fn json_bool(b: bool) -> Seq<char> {
    if b {
        "true"@
    } else {
        "false"@
    }
}

/// A field that is written only when its value is present.
pub open spec fn json_opt_field(key: Seq<char>, value: Option<Seq<char>>) -> Seq<Seq<char>> {
    match value {
        Some(v) => seq![json_field(key, v)],
        None => Seq::empty(),
    }
}

/// The items separated by commas.
pub open spec fn json_join(items: Seq<Seq<char>>) -> Seq<char>
    decreases items.len(),
{
    if items.len() == 0 {
        Seq::empty()
    } else if items.len() == 1 {
        items[0]
    } else {
        json_join(items.drop_last()) + ","@ + items.last()
    }
}

/// An object of the given fields, in order.
pub open spec fn json_object(fields: Seq<Seq<char>>) -> Seq<char> {
    "{"@ + json_join(fields) + "}"@
}

/// An array of the given items, in order.
pub open spec fn json_array(items: Seq<Seq<char>>) -> Seq<char> {
    "["@ + json_join(items) + "]"@
}

/// The views of a sequence of strings.
pub open spec fn views(v: Seq<String>) -> Seq<Seq<char>> {
    v.map_values(|s: String| s@)
}

/// An array of JSON strings.
pub open spec fn json_text_array(v: Seq<String>) -> Seq<char> {
    json_array(v.map_values(|s: String| json_quoted(s@)))
}

/// Joins `parts` with commas between `open` and `close`.
pub fn join_json(parts: &Vec<String>, open: &str, close: &str) -> (r: String)
    ensures
        r@ == open@ + json_join(views(parts@)) + close@,
{
    let mut out = String::from_str(open);
    let mut i: usize = 0;
    while i < parts.len()
        invariant
            i <= parts@.len(),
            out@ == open@ + json_join(views(parts@).take(i as int)),
        decreases parts@.len() - i,
    {
        let ghost before = views(parts@).take(i as int);
        let ghost after = views(parts@).take(i as int + 1);
        if i > 0 {
            out.append(",");
        }
        out.append(parts[i].as_str());
        proof {
            assert(after.drop_last() =~= before);
            assert(after.last() == parts@[i as int]@);
            if i == 0 {
                assert(json_join(after) == after[0]);
            }
            assert(out@ =~= open@ + json_join(after));
        }
        i = i + 1;
    }
    assert(views(parts@).take(parts@.len() as int) =~= views(parts@));
    out.concat(close)
}

/// Writes `"key":value`.
pub fn field(key: &str, value: &str) -> (r: String)
    ensures
        r@ == json_field(key@, value@),
{
    let mut s = String::from_str("\"");
    s.append(key);
    s.append("\":");
    s.append(value);
    s
}

/// Writes a field whose value is the JSON string of `s`.
pub fn text_field(key: &str, s: &str) -> (r: String)
    ensures
        r@ == json_text_field(key@, s@),
{
    let q = json_quote(s);
    field(key, q.as_str())
}

/// Writes a boolean field.
pub fn bool_field(key: &str, b: bool) -> (r: String)
    ensures
        r@ == json_field(key@, json_bool(b)),
{
    field(key, if b { "true" } else { "false" })
}

/// Writes a numeric field.
pub fn number_field(key: &str, n: usize) -> (r: String)
    ensures
        r@ == json_field(key@, decimal(n as nat)),
{
    let d = decimal_string(n);
    field(key, d.as_str())
}

/// Writes an array of JSON strings.
pub fn text_array(v: &Vec<String>) -> (r: String)
    ensures
        r@ == json_text_array(v@),
{
    let mut parts: Vec<String> = Vec::new();
    let mut i: usize = 0;
    while i < v.len()
        invariant
            i <= v@.len(),
            views(parts@) =~= v@.take(i as int).map_values(|s: String| json_quoted(s@)),
        decreases v@.len() - i,
    {
        let ghost prev = parts@;
        let q = json_quote(v[i].as_str());
        parts.push(q);
        proof {
            assert(parts@ =~= prev.push(q));
            assert(views(parts@) =~= views(prev).push(q@));
            assert(v@.take(i as int + 1) =~= v@.take(i as int).push(v@[i as int]));
        }
        i = i + 1;
    }
    assert(v@.take(v@.len() as int) =~= v@);
    join_json(&parts, "[", "]")
}

} // verus!
