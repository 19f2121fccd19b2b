use vstd::prelude::*;
use crate::text::string_is;

verus! {

/// A parsed JSON document, held as plain values the library can reason
/// about. Object members are kept in the order the parser hands them out.
/// A number keeps only its decimal rendering: no operation of this shell
/// reads a numeric value.
pub enum JsonValue {
    Null,
    Bool(bool),
    Num(String),
    Str(String),
    Arr(Vec<JsonValue>),
    Obj(Vec<(String, JsonValue)>),
}

#[verifier::external_type_specification]
#[verifier::external_body]
pub struct ExValue(serde_json::Value);

/// What `serde_json::from_str` makes of a text: the parsed document, or
/// nothing when the text is not well-formed JSON. This crate's serde_json
/// configuration keeps object members sorted by key, so the outcome is a
/// function of the text alone.
pub uninterp spec fn json_of(s: Seq<char>) -> Option<JsonValue>;

/// Relies on serde_json::Value being the faithful tree of the parsed
/// document; each node is carried over to the library's model one for one.
#[verifier::external_body]
fn value_to_model(v: &serde_json::Value) -> JsonValue {
    match v {
        serde_json::Value::Null => JsonValue::Null,
        serde_json::Value::Bool(b) => JsonValue::Bool(*b),
        serde_json::Value::Number(n) => JsonValue::Num(n.to_string()),
        serde_json::Value::String(s) => JsonValue::Str(s.clone()),
        serde_json::Value::Array(a) => JsonValue::Arr(a.iter().map(value_to_model).collect()),
        serde_json::Value::Object(o) => JsonValue::Obj(
            o.iter().map(|(k, m)| (k.clone(), value_to_model(m))).collect(),
        ),
    }
}

/// Relies on `serde_json::from_str::<serde_json::Value>`: parses the text
/// as one JSON document; success and the resulting document depend on the
/// text alone. On failure the parser's error rendering is returned, and
/// nothing is assumed of it.
#[verifier::external_body]
pub(crate) fn parse_json(s: &str) -> (r: Result<JsonValue, String>)
    ensures
        (r is Ok) == (json_of(s@) is Some),
        r matches Ok(v) ==> json_of(s@) == Some(v),
{
    match serde_json::from_str::<serde_json::Value>(s) {
        Ok(v) => Ok(value_to_model(&v)),
        Err(e) => Err(e.to_string()),
    }
}

/// The first value under the given key, scanning members in order.
pub open spec fn spec_lookup(members: Seq<(String, JsonValue)>, key: Seq<char>) -> Option<
    JsonValue,
>
    decreases members.len(),
{
    if members.len() == 0 {
        None
    } else if members[0].0@ == key {
        Some(members[0].1)
    } else {
        spec_lookup(members.drop_first(), key)
    }
}

/// The first value under the given key among an object's members.
pub fn lookup<'a>(members: &'a Vec<(String, JsonValue)>, key: &str) -> (r: Option<&'a JsonValue>)
    ensures
        match r {
            Some(v) => spec_lookup(members@, key@) == Some(*v),
            None => spec_lookup(members@, key@) is None,
        },
{
    let mut i: usize = 0;
    proof {
        assert(members@.skip(0) =~= members@);
    }
    while i < members.len()
        invariant
            i <= members@.len(),
            spec_lookup(members@, key@) == spec_lookup(members@.skip(i as int), key@),
        decreases members@.len() - i,
    {
        proof {
            assert(members@.skip(i as int)[0] == members@[i as int]);
            assert(members@.skip(i as int).drop_first() =~= members@.skip(i + 1));
        }
        if string_is(&members[i].0, key) {
            return Some(&members[i].1);
        }
        i += 1;
    }
    proof {
        assert(members@.skip(members@.len() as int).len() == 0);
    }
    None
}

/// A required string member: present, and a JSON string.
pub open spec fn spec_str_member(members: Seq<(String, JsonValue)>, key: Seq<char>) -> Option<
    Seq<char>,
> {
    match spec_lookup(members, key) {
        Some(JsonValue::Str(s)) => Some(s@),
        _ => None,
    }
}

/// An optional string member: an absent member and a null one both mean no
/// value; any other non-string value is a shape mismatch.
pub open spec fn spec_opt_str_member(members: Seq<(String, JsonValue)>, key: Seq<char>) -> Option<
    Option<Seq<char>>,
> {
    match spec_lookup(members, key) {
        None => Some(None),
        Some(JsonValue::Null) => Some(None),
        Some(JsonValue::Str(s)) => Some(Some(s@)),
        Some(_) => None,
    }
}

/// Reads a required string member of an object.
pub fn str_member(members: &Vec<(String, JsonValue)>, key: &str) -> (r: Option<String>)
    ensures
        match r {
            Some(s) => spec_str_member(members@, key@) == Some(s@),
            None => spec_str_member(members@, key@) is None,
        },
{
    match lookup(members, key) {
        Some(JsonValue::Str(s)) => Some(s.clone()),
        _ => None,
    }
}

/// Reads an optional string member of an object.
pub fn opt_str_member(members: &Vec<(String, JsonValue)>, key: &str) -> (r: Option<Option<String>>)
    ensures
        match r {
            Some(Some(s)) => spec_opt_str_member(members@, key@) == Some(Some(s@)),
            Some(None) => spec_opt_str_member(members@, key@) == Some(None::<Seq<char>>),
            None => spec_opt_str_member(members@, key@) is None,
        },
{
    match lookup(members, key) {
        Some(JsonValue::Str(s)) => Some(Some(s.clone())),
        Some(JsonValue::Null) => Some(None),
        Some(_) => None,
        None => Some(None),
    }
}

} // verus!
