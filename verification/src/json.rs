//! A model of JSON values, as far as the bridge reads and writes them, and
//! the pretty-printing of flat JSON objects.

use vstd::prelude::*;

verus! {

/// A JSON number, as far as the bridge reads it.
pub enum JsonNumber {
    /// A non-negative integer.
    PosInt(u64),
    /// A negative integer.
    NegInt(i64),
    /// A floating-point number; its value is never read here.
    Float,
}

/// A JSON value, as carried by the data of a comm message. An object is the
/// list of its members; looking a member up finds the first one with the
/// name, which for a parsed JSON object (whose names are unique) is the only
/// one.
pub enum JsonValue {
    Null,
    Bool(bool),
    Number(JsonNumber),
    String(String),
    Array(Vec<JsonValue>),
    Object(Vec<(String, JsonValue)>),
}

/// The value stored under `key` among `entries`, if any.
pub open spec fn entries_get(entries: Seq<(String, JsonValue)>, key: Seq<char>) -> Option<JsonValue>
    decreases entries.len(),
{
    if entries.len() == 0 {
        None
    } else if entries[0].0@ == key {
        Some(entries[0].1)
    } else {
        entries_get(entries.drop_first(), key)
    }
}

/// `value.get(key)`: the member `key` of an object, `None` for anything else.
pub open spec fn json_get(value: JsonValue, key: Seq<char>) -> Option<JsonValue> {
    match value {
        JsonValue::Object(entries) => entries_get(entries@, key),
        _ => None,
    }
}

/// `value[key]`: the member `key` of an object, `null` when there is none.
pub open spec fn json_index(value: JsonValue, key: Seq<char>) -> JsonValue {
    match json_get(value, key) {
        Some(member) => member,
        None => JsonValue::Null,
    }
}

/// `value.as_str()`.
pub open spec fn json_as_str(value: JsonValue) -> Option<Seq<char>> {
    match value {
        JsonValue::String(s) => Some(s@),
        _ => None,
    }
}

/// `value.as_u64()`: only a non-negative integer has one.
pub open spec fn json_as_u64(value: JsonValue) -> Option<u64> {
    match value {
        JsonValue::Number(JsonNumber::PosInt(n)) => Some(n),
        _ => None,
    }
}

impl JsonValue {
    /// The member `key` of an object, or `None` if `self` is not an object or
    /// has no such member.
    pub fn get(&self, key: &str) -> (member: Option<&JsonValue>)
        ensures
            match member {
                Some(m) => json_get(*self, key@) == Some(*m),
                None => json_get(*self, key@) is None,
            },
    {
        match self {
            JsonValue::Object(entries) => {
                let wanted = String::from_str(key);
                let mut i: usize = 0;
                assert(entries@.skip(0) =~= entries@);
                while i < entries.len()
                    invariant
                        i <= entries.len(),
                        wanted@ == key@,
                        json_get(*self, key@) == entries_get(entries@, key@),
                        entries_get(entries@, key@) == entries_get(entries@.skip(i as int), key@),
                    decreases entries.len() - i,
                {
                    let ghost rest = entries@.skip(i as int);
                    assert(rest[0] == entries@[i as int]);
                    if entries[i].0 == wanted {
                        assert(entries_get(rest, key@) == Some(rest[0].1));
                        let member = &entries[i].1;
                        assert(*member == rest[0].1);
                        return Some(member);
                    }
                    assert(rest.drop_first() =~= entries@.skip(i + 1));
                    i = i + 1;
                }
                None
            },
            _ => None,
        }
    }

    /// The string, if `self` is one.
    pub fn as_str(&self) -> (s: Option<&str>)
        ensures
            match s {
                Some(s) => json_as_str(*self) == Some(s@),
                None => json_as_str(*self) is None,
            },
    {
        match self {
            JsonValue::String(s) => Some(s.as_str()),
            _ => None,
        }
    }

    /// The number, if `self` is a non-negative integer.
    pub fn as_u64(&self) -> (n: Option<u64>)
        ensures
            n == json_as_u64(*self),
    {
        match self {
            JsonValue::Number(JsonNumber::PosInt(n)) => Some(*n),
            _ => None,
        }
    }
}

/// A JSON value that is neither a container nor a floating-point number,
/// by its contents.
pub enum JsonScalar {
    Null,
    Bool(bool),
    PosInt(u64),
    NegInt(i64),
    Str(Seq<char>),
}

/// The contents of `value`, if it is a scalar.
pub open spec fn scalar_view(value: JsonValue) -> Option<JsonScalar> {
    match value {
        JsonValue::Null => Some(JsonScalar::Null),
        JsonValue::Bool(b) => Some(JsonScalar::Bool(b)),
        JsonValue::Number(JsonNumber::PosInt(n)) => Some(JsonScalar::PosInt(n)),
        JsonValue::Number(JsonNumber::NegInt(n)) => Some(JsonScalar::NegInt(n)),
        JsonValue::String(s) => Some(JsonScalar::Str(s@)),
        _ => None,
    }
}

/// Whether every member of an object is a scalar.
pub open spec fn is_flat_object(members: Seq<(String, JsonValue)>) -> bool {
    forall|i: int| 0 <= i < members.len() ==> (#[trigger] scalar_view(members[i].1)) is Some
}

/// The names and scalar contents of the members of a flat object, in order.
pub open spec fn flat_object_view(members: Seq<(String, JsonValue)>) -> Seq<(Seq<char>, JsonScalar)> {
    members.map_values(
        |member: (String, JsonValue)|
            (
                member.0@,
                match scalar_view(member.1) {
                    Some(scalar) => scalar,
                    None => JsonScalar::Null,
                },
            ),
    )
}

/// The text that `serde_json::to_string_pretty` makes of the JSON object
/// with these members.
pub uninterp spec fn pretty_object_text(members: Seq<(Seq<char>, JsonScalar)>) -> Seq<char>;

/// The JSON object with these (scalar) members, pretty-printed by
/// `serde_json::to_string_pretty`.
///
/// Trusted: the text is serde_json's, named by [`pretty_object_text`]. It
/// always succeeds: serde_json fails only when a `Serialize` impl decides to
/// or a map has non-string keys, neither of which a `Value` object with
/// string names does, and writing into its in-memory buffer cannot fail.
#[verifier::external_body]
pub fn to_pretty_object_text(members: &Vec<(String, JsonValue)>) -> (text: Option<String>)
    requires
        is_flat_object(members@),
    ensures
        text is Some,
        text matches Some(t) ==> t@ == pretty_object_text(flat_object_view(members@)),
{
    let mut object = serde_json::Map::new();
    for (name, value) in members {
        let value = match value {
            JsonValue::Bool(b) => serde_json::Value::Bool(*b),
            JsonValue::Number(JsonNumber::PosInt(n)) => serde_json::Value::from(*n),
            JsonValue::Number(JsonNumber::NegInt(n)) => serde_json::Value::from(*n),
            JsonValue::String(s) => serde_json::Value::from(s.as_str()),
            _ => serde_json::Value::Null,
        };
        object.insert(name.clone(), value);
    }
    serde_json::to_string_pretty(&serde_json::Value::Object(object)).ok()
}

} // verus!
