//! A plain model of decoded JSON: exactly what the report reducer reads and
//! hands on.

use vstd::prelude::*;
use vstd::string::StringExecFns;

verus! {

/// A JSON number: its literal text, and its value where it is a
/// non-negative integer that fits in 64 bits.
#[derive(Debug, PartialEq, Eq)]
pub struct JsonNumber {
    pub literal: String,
    pub unsigned: Option<u64>,
}

/// A decoded JSON value. The members of an object are held in order; where a
/// key occurs more than once, the last occurrence is the one that counts.
#[derive(Debug, PartialEq, Eq)]
pub enum Json {
    Null,
    Bool(bool),
    Number(JsonNumber),
    String(String),
    Array(Vec<Json>),
    Object(Vec<(String, Json)>),
}

/// The value that `members` binds to `key`: that of the last member with
/// this key, if there is one.
pub open spec fn lookup(members: Seq<(String, Json)>, key: Seq<char>) -> Option<Json>
    decreases members.len(),
{
    if members.len() == 0 {
        None
    } else if members.last().0@ == key {
        Some(members.last().1)
    } else {
        lookup(members.drop_last(), key)
    }
}

/// A key is bound by `lookup` exactly when some member carries it.
pub proof fn lookup_is_some_iff_key_occurs(members: Seq<(String, Json)>, key: Seq<char>)
    ensures
        lookup(members, key).is_some() <==> exists|i: int|
            0 <= i < members.len() && (#[trigger] members[i]).0@ == key,
    decreases members.len(),
{
    if members.len() > 0 {
        let front = members.drop_last();
        lookup_is_some_iff_key_occurs(front, key);
        if members.last().0@ != key {
            if lookup(front, key).is_some() {
                let i = choose|i: int| 0 <= i < front.len() && (#[trigger] front[i]).0@ == key;
                assert(members[i] == front[i]);
            }
            if exists|i: int| 0 <= i < members.len() && (#[trigger] members[i]).0@ == key {
                let i = choose|i: int| 0 <= i < members.len() && (#[trigger] members[i]).0@ == key;
                assert(front[i] == members[i]);
            }
        } else {
            assert(members[members.len() - 1] == members.last());
        }
    }
}

#[verifier::external_type_specification]
#[verifier::external_body]
pub struct ExValue(serde_json::Value);

#[verifier::external_type_specification]
#[verifier::external_body]
pub struct ExJsonError(serde_json::Error);

/// What a text decodes to under `serde_json::from_str`, written in this
/// library's model; `None` for a text that is not one JSON value.
pub uninterp spec fn json_decode(text: Seq<char>) -> Option<Json>;

/// A `serde_json::Value` written in this library's model: variant for
/// variant, the items of an array and the members of an object in the order
/// in which `serde_json` walks them.
pub uninterp spec fn json_model(value: serde_json::Value) -> Json;

/// Calls `serde_json::from_str` for a `serde_json::Value`. The contract
/// claims that the text alone decides whether it decodes, and to what.
#[verifier::external_body]
fn parse_value(text: &str) -> (r: Result<serde_json::Value, serde_json::Error>)
    ensures
        match r {
            Ok(value) => json_decode(text@) == Some(json_model(value)),
            Err(_) => json_decode(text@).is_none(),
        },
{
    serde_json::from_str::<serde_json::Value>(text)
}

/// Takes a `serde_json::Value` apart by its variants and writes it in this
/// library's model. A number keeps what `Number::to_string` and
/// `Number::as_u64` give for it.
#[verifier::external_body]
fn model_of(value: &serde_json::Value) -> (json: Json)
    ensures
        json == json_model(*value),
{
    match value {
        serde_json::Value::Null => Json::Null,
        serde_json::Value::Bool(b) => Json::Bool(*b),
        serde_json::Value::Number(n) => Json::Number(
            JsonNumber { literal: n.to_string(), unsigned: n.as_u64() },
        ),
        serde_json::Value::String(s) => Json::String(s.clone()),
        serde_json::Value::Array(items) => Json::Array(items.iter().map(model_of).collect()),
        serde_json::Value::Object(map) => Json::Object(
            map.iter().map(|(key, item)| (key.clone(), model_of(item))).collect(),
        ),
    }
}

/// Decodes a text as one JSON value.
pub fn decode(text: &str) -> (r: Option<Json>)
    ensures
        r == json_decode(text@),
{
    match parse_value(text) {
        Ok(value) => Some(model_of(&value)),
        Err(_) => None,
    }
}

impl Json {
    /// The members of an object; no members for any other value.
    pub open spec fn members(&self) -> Seq<(String, Json)> {
        match self {
            Json::Object(m) => m@,
            _ => Seq::empty(),
        }
    }

    /// The member of an object under `key`; `None` for a missing key and for
    /// any value that is no object.
    pub open spec fn member(&self, key: Seq<char>) -> Option<Json> {
        lookup(self.members(), key)
    }

    pub open spec fn spec_is_object(&self) -> bool {
        self is Object
    }

    /// The value as a non-negative integer, where it is a number that has one.
    pub open spec fn spec_as_u64(&self) -> Option<u64> {
        match self {
            Json::Number(n) => n.unsigned,
            _ => None,
        }
    }

    #[verifier::when_used_as_spec(spec_is_object)]
    pub fn is_object(&self) -> (b: bool)
        ensures
            b == (self is Object),
    {
        match self {
            Json::Object(_) => true,
            _ => false,
        }
    }

    /// Whether the value is an object without members.
    pub fn is_empty_object(&self) -> (b: bool)
        ensures
            b == (self is Object && self.members().len() == 0),
    {
        match self {
            Json::Object(m) => m.len() == 0,
            _ => false,
        }
    }

    #[verifier::when_used_as_spec(spec_as_u64)]
    pub fn as_u64(&self) -> (r: Option<u64>)
        ensures
            r == self.spec_as_u64(),
    {
        match self {
            Json::Number(n) => n.unsigned,
            _ => None,
        }
    }

    /// Looks a key up in an object.
    pub fn get(&self, key: &str) -> (r: Option<&Json>)
        ensures
            match r {
                Some(v) => self.member(key@) == Some(*v),
                None => self.member(key@).is_none(),
            },
    {
        match self {
            Json::Object(m) => {
                let wanted = String::from_str(key);
                let mut i: usize = m.len();
                assert(m@.take(i as int) =~= m@);
                while i > 0
                    invariant
                        i <= m.len(),
                        wanted@ == key@,
                        self.members() == m@,
                        lookup(m@, key@) == lookup(m@.take(i as int), key@),
                    decreases i,
                {
                    let ghost front = m@.take(i as int);
                    i = i - 1;
                    if m[i].0 == wanted {
                        assert(front.last() == m@[i as int]);
                        assert(lookup(front, key@) == Some(m@[i as int].1));
                        return Some(&m[i].1);
                    }
                    assert(front.drop_last() =~= m@.take(i as int));
                }
                assert(m@.take(0) =~= Seq::empty());
                None
            },
            _ => None,
        }
    }
}

} // verus!
