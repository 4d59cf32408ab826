use vstd::prelude::*;
use crate::text::str_eq;

verus! {

/// `serde_json::Value`, declared so that the parser's result can be converted.
#[verifier::external_type_specification]
#[verifier::external_body]
pub struct ExJsonValue(serde_json::Value);

/// A JSON number, held as what it reads as an unsigned and as a signed 64-bit
/// integer (both `None` for a fraction or a number out of range).
#[derive(Debug, Clone, Copy, PartialEq, Eq)]
pub struct JsonNumber {
    pub as_u64: Option<u64>,
    pub as_i64: Option<i64>,
}

/// A parsed JSON document. An object holds its members in the parser's order,
/// each key once.
#[derive(Debug, PartialEq)]
pub enum Json {
    Null,
    Bool(bool),
    Number(JsonNumber),
    String(String),
    Array(Vec<Json>),
    Object(Vec<(String, Json)>),
}

/// What `serde_json` parses `text` into, if it is a JSON document.
pub uninterp spec fn json_parse(text: Seq<char>) -> Option<Json>;

/// Parses `text` with `serde_json::from_str` into a `serde_json::Value` and
/// converts it; `None` when serde_json rejects the text. The result is named
/// by `json_parse`.
#[verifier::external_body]
pub(crate) fn parse_json(text: &str) -> (r: Option<Json>)
    ensures
        r == json_parse(text@),
{
    serde_json::from_str::<serde_json::Value>(text).ok().map(json_from_value)
}

/// Converts a `serde_json::Value` into a `Json`, variant for variant; a number
/// keeps what `Number::as_u64` and `Number::as_i64` read it as.
#[verifier::external_body]
fn json_from_value(value: serde_json::Value) -> Json {
    match value {
        serde_json::Value::Null => Json::Null,
        serde_json::Value::Bool(b) => Json::Bool(b),
        serde_json::Value::Number(n) => Json::Number(JsonNumber { as_u64: n.as_u64(), as_i64: n.as_i64() }),
        serde_json::Value::String(s) => Json::String(s),
        serde_json::Value::Array(items) => Json::Array(items.into_iter().map(json_from_value).collect()),
        serde_json::Value::Object(map) => Json::Object(map.into_iter().map(|(k, v)| (k, json_from_value(v))).collect()),
    }
}

/// The value of the first member named `key`.
pub open spec fn member(entries: Seq<(String, Json)>, key: Seq<char>) -> Option<Json>
    decreases entries.len(),
{
    if entries.len() == 0 {
        None
    } else if entries[0].0@ == key {
        Some(entries[0].1)
    } else {
        member(entries.drop_first(), key)
    }
}

/// Looking up `key` among members gives the value of the first member named
/// `key`, and nothing exactly when no member is named `key`.
pub proof fn law_member_first_match(entries: Seq<(String, Json)>, key: Seq<char>)
    ensures
        member(entries, key) is None <==> forall|i: int| 0 <= i < entries.len() ==> #[trigger] entries[i].0@ != key,
        member(entries, key) matches Some(v) ==> exists|i: int|
            0 <= i < entries.len() && #[trigger] entries[i].0@ == key && entries[i].1 == v
                && forall|j: int| 0 <= j < i ==> #[trigger] entries[j].0@ != key,
    decreases entries.len(),
{
    if entries.len() > 0 {
        let rest = entries.drop_first();
        law_member_first_match(rest, key);
        if entries[0].0@ == key {
            assert(entries[0].0@ == key);
        } else {
            assert forall|i: int| 0 <= i < rest.len() implies #[trigger] rest[i] == entries[i + 1] by {}
            if member(rest, key) is Some {
                let v = member(rest, key)->0;
                let i = choose|i: int|
                    0 <= i < rest.len() && #[trigger] rest[i].0@ == key && rest[i].1 == v
                        && forall|j: int| 0 <= j < i ==> #[trigger] rest[j].0@ != key;
                assert(entries[i + 1].0@ == key);
                assert forall|j: int| 0 <= j < i + 1 implies #[trigger] entries[j].0@ != key by {
                    if j > 0 {
                        assert(entries[j] == rest[j - 1]);
                    }
                }
            } else {
                assert forall|i: int| 0 <= i < entries.len() implies #[trigger] entries[i].0@ != key by {
                    if i > 0 {
                        assert(entries[i] == rest[i - 1]);
                    }
                }
            }
        }
    }
}

/// `value[key]` when `value` is an object that has `key`.
pub open spec fn json_get(value: Json, key: Seq<char>) -> Option<Json> {
    match value {
        Json::Object(entries) => member(entries@, key),
        _ => None,
    }
}

/// The value reached from `value` by looking up each key of `path` in turn.
pub open spec fn json_at(value: Json, path: Seq<Seq<char>>) -> Option<Json>
    decreases path.len(),
{
    if path.len() == 0 {
        Some(value)
    } else {
        match json_get(value, path[0]) {
            Some(child) => json_at(child, path.drop_first()),
            None => None,
        }
    }
}

/// The text of a value that is a JSON string.
pub open spec fn json_str(value: Option<Json>) -> Option<Seq<char>> {
    match value {
        Some(Json::String(s)) => Some(s@),
        _ => None,
    }
}

/// A value that is a number representable as `u64`.
pub open spec fn json_u64(value: Option<Json>) -> Option<u64> {
    match value {
        Some(Json::Number(n)) => n.as_u64,
        _ => None,
    }
}

/// A value that is a number representable as `i64`.
pub open spec fn json_i64(value: Option<Json>) -> Option<i64> {
    match value {
        Some(Json::Number(n)) => n.as_i64,
        _ => None,
    }
}

/// The first of `keys` whose member is a string, and that string.
pub open spec fn first_string(value: Json, keys: Seq<Seq<char>>) -> Option<Seq<char>>
    decreases keys.len(),
{
    if keys.len() == 0 {
        None
    } else {
        match json_str(json_get(value, keys[0])) {
            Some(s) => Some(s),
            None => first_string(value, keys.drop_first()),
        }
    }
}

/// The first of several keys whose member is a string gives the result: no
/// earlier key names a string member, and nothing comes out exactly when
/// none of the keys does.
pub proof fn law_first_string(value: Json, keys: Seq<Seq<char>>)
    ensures
        first_string(value, keys) is None <==> forall|i: int|
            0 <= i < keys.len() ==> #[trigger] json_str(json_get(value, keys[i])) is None,
        first_string(value, keys) matches Some(s) ==> exists|i: int|
            0 <= i < keys.len() && #[trigger] json_str(json_get(value, keys[i])) == Some(s)
                && forall|j: int| 0 <= j < i ==> #[trigger] json_str(json_get(value, keys[j])) is None,
    decreases keys.len(),
{
    if keys.len() > 0 {
        let rest = keys.drop_first();
        law_first_string(value, rest);
        assert forall|i: int| 0 <= i < rest.len() implies #[trigger] rest[i] == keys[i + 1] by {}
        if json_str(json_get(value, keys[0])) is Some {
            assert(json_str(json_get(value, keys[0])) == first_string(value, keys));
        } else if first_string(value, rest) is Some {
            let s = first_string(value, rest)->0;
            let i = choose|i: int|
                0 <= i < rest.len() && #[trigger] json_str(json_get(value, rest[i])) == Some(s)
                    && forall|j: int| 0 <= j < i ==> #[trigger] json_str(json_get(value, rest[j])) is None;
            assert(json_str(json_get(value, keys[i + 1])) == Some(s));
            assert forall|j: int| 0 <= j < i + 1 implies #[trigger] json_str(json_get(value, keys[j])) is None by {
                if j > 0 {
                    assert(keys[j] == rest[j - 1]);
                }
            }
        } else {
            assert forall|i: int| 0 <= i < keys.len() implies #[trigger] json_str(json_get(value, keys[i])) is None by {
                if i > 0 {
                    assert(keys[i] == rest[i - 1]);
                }
            }
        }
    }
}

/// Looks up `key` in `value`.
pub fn get<'a>(value: &'a Json, key: &str) -> (r: Option<&'a Json>)
    ensures
        match r {
            Some(child) => json_get(*value, key@) == Some(*child),
            None => json_get(*value, key@) is None,
        },
{
    match value {
        Json::Object(entries) => {
            let mut i: usize = 0;
            assert(entries@.skip(0) =~= entries@);
            while i < entries.len()
                invariant
                    i <= entries.len(),
                    *value == Json::Object(*entries),
                    member(entries@, key@) == member(entries@.skip(i as int), key@),
                decreases entries.len() - i,
            {
                assert(entries@.skip(i as int)[0] == entries@[i as int]);
                assert(entries@.skip(i as int).drop_first() =~= entries@.skip(i as int + 1));
                if str_eq(entries[i].0.as_str(), key) {
                    assert(member(entries@.skip(i as int), key@) == Some(entries@[i as int].1));
                    return Some(&entries[i].1);
                }
                i = i + 1;
            }
            None
        },
        _ => None,
    }
}

/// Looks up `key` in `value` and reads it as a string.
pub fn get_str<'a>(value: &'a Json, key: &str) -> (r: Option<&'a str>)
    ensures
        match r {
            Some(s) => json_str(json_get(*value, key@)) == Some(s@),
            None => json_str(json_get(*value, key@)) is None,
        },
{
    match get(value, key) {
        Some(Json::String(s)) => Some(s.as_str()),
        _ => None,
    }
}

/// Looks up `key` in `value` and reads it as an `i64`.
pub fn get_i64(value: &Json, key: &str) -> (r: Option<i64>)
    ensures
        r == json_i64(json_get(*value, key@)),
{
    match get(value, key) {
        Some(Json::Number(n)) => n.as_i64,
        _ => None,
    }
}

/// The first of `keys` whose member in `value` is a string, as an owned string.
pub fn string_at(value: &Json, keys: &[&str]) -> (r: Option<String>)
    ensures
        match r {
            Some(s) => first_string(*value, keys.deep_view()) == Some(s@),
            None => first_string(*value, keys.deep_view()) is None,
        },
{
    let mut i: usize = 0;
    assert(keys.deep_view().skip(0) =~= keys.deep_view());
    while i < keys.len()
        invariant
            i <= keys.len(),
            first_string(*value, keys.deep_view()) == first_string(*value, keys.deep_view().skip(i as int)),
        decreases keys.len() - i,
    {
        assert(keys.deep_view().skip(i as int)[0] == keys[i as int]@);
        assert(keys.deep_view().skip(i as int).drop_first() =~= keys.deep_view().skip(i as int + 1));
        match get_str(value, keys[i]) {
            Some(s) => return Some(String::from_str(s)),
            None => {},
        }
        i = i + 1;
    }
    None
}

/// Follows `path` from `value` and reads what it reaches as a `u64`.
pub fn number_at(value: &Json, path: &[&str]) -> (r: Option<u64>)
    ensures
        r == json_u64(json_at(*value, path.deep_view())),
{
    let mut current = value;
    let mut i: usize = 0;
    assert(path.deep_view().skip(0) =~= path.deep_view());
    while i < path.len()
        invariant
            i <= path.len(),
            json_at(*value, path.deep_view()) == json_at(*current, path.deep_view().skip(i as int)),
        decreases path.len() - i,
    {
        assert(path.deep_view().skip(i as int)[0] == path[i as int]@);
        assert(path.deep_view().skip(i as int).drop_first() =~= path.deep_view().skip(i as int + 1));
        match get(current, path[i]) {
            Some(child) => current = child,
            None => return None,
        }
        i = i + 1;
    }
    assert(path.deep_view().skip(i as int) =~= Seq::<Seq<char>>::empty());
    match current {
        Json::Number(n) => n.as_u64,
        _ => None,
    }
}

} // verus!
