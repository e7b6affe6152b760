use vstd::prelude::*;

verus! {

/// A JSON document, as this crate represents it.
///
/// Numbers keep the decimal text they were printed with rather than a binary
/// form, so no precision is lost and no floating point is involved; objects
/// keep their fields as an ordered list of key/value pairs.
#[derive(Debug)]
pub enum Json {
    Null,
    Bool(bool),
    /// The number's decimal text, e.g. `"-12"` or `"0.5"`.
    Num(String),
    Str(String),
    Arr(Vec<Json>),
    Obj(Vec<(String, Json)>),
}

/// The value of the first field named `key`, if any.
pub open spec fn spec_lookup(fields: Seq<(String, Json)>, key: Seq<char>) -> Option<Json>
    decreases fields.len(),
{
    if fields.len() == 0 {
        None
    } else if fields[0].0@ == key {
        Some(fields[0].1)
    } else {
        spec_lookup(fields.drop_first(), key)
    }
}

/// What parsing the given text as JSON yields, carried into this crate's
/// `Json` representation; `None` where the text is not valid JSON.  The
/// result is a function of the text alone.
pub uninterp spec fn spec_parse_json(s: Seq<char>) -> Option<Json>;

#[verifier::external_type_specification]
#[verifier::external_body]
pub struct ExJsonValue(serde_json::Value);

/// Relies on `serde_json::from_str::<serde_json::Value>`: parses the text as
/// JSON, yielding `None` where the parse fails; what it yields depends on
/// the text alone.  The tree is then carried over by `json_of_value`.
#[verifier::external_body]
pub fn parse_json(s: &str) -> (r: Option<Json>)
    ensures
        r == spec_parse_json(s@),
{
    match serde_json::from_str::<serde_json::Value>(s) {
        Ok(v) => Some(json_of_value(v)),
        Err(_) => None,
    }
}

/// Relies on `serde_json::Value`: carries each node of a parsed tree into
/// this crate's `Json` type, one arm per variant, moving fields only.
/// Object fields come out in `serde_json::Map`'s iteration order (ascending
/// by key, duplicates already collapsed by the parser); numbers keep the
/// decimal text that `serde_json::Number`'s `Display` prints for them.
#[verifier::external_body]
fn json_of_value(v: serde_json::Value) -> Json {
    match v {
        serde_json::Value::Null => Json::Null,
        serde_json::Value::Bool(b) => Json::Bool(b),
        serde_json::Value::Number(n) => Json::Num(n.to_string()),
        serde_json::Value::String(s) => Json::Str(s),
        serde_json::Value::Array(a) => Json::Arr(a.into_iter().map(json_of_value).collect()),
        serde_json::Value::Object(m) => Json::Obj(
            m.into_iter().map(|(k, w)| (k, json_of_value(w))).collect(),
        ),
    }
}

/// The value of the first field named `key` in `fields`, if any.
pub fn json_lookup<'a>(fields: &'a Vec<(String, Json)>, key: &String) -> (r: Option<&'a Json>)
    ensures
        (match r {
            Some(j) => spec_lookup(fields@, key@) == Some(*j),
            None => spec_lookup(fields@, key@) is None,
        }),
{
    assert(fields@.skip(0) =~= fields@);
    let mut i: usize = 0;
    while i < fields.len()
        invariant
            i <= fields@.len(),
            spec_lookup(fields@, key@) == spec_lookup(fields@.skip(i as int), key@),
        decreases fields@.len() - i,
    {
        let ghost suffix = fields@.skip(i as int);
        assert(suffix[0] == fields@[i as int]);
        if fields[i].0 == *key {
            return Some(&fields[i].1);
        }
        assert(suffix.drop_first() =~= fields@.skip(i as int + 1));
        i = i + 1;
    }
    None
}

} // verus!
