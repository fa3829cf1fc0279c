use vstd::prelude::*;

verus! {

#[verifier::external_type_specification]
#[verifier::external_body]
pub struct ExValue(serde_json::Value);

#[verifier::external_type_specification]
#[verifier::external_body]
pub struct ExNumber(serde_json::Number);

/// Relies on serde_json::Number::as_u64: the number if it is a non-negative
/// integer that fits a `u64`.
pub assume_specification[ serde_json::Number::as_u64 ](n: &serde_json::Number) -> Option<u64>;

/// Relies on serde_json::Number::as_i64: the number if it is an integer that
/// fits an `i64`.
pub assume_specification[ serde_json::Number::as_i64 ](n: &serde_json::Number) -> Option<i64>;

/// A JSON number, kept in the form serde_json read it in.
#[derive(Debug)]
pub enum JsonNumber {
    /// An integer that fits a `u64`.
    Unsigned(u64),
    /// An integer that fits an `i64` (serde_json gives negative ones here).
    Signed(i64),
    /// Any other number, as its decimal text.
    Float(String),
}

/// A JSON document. Object members keep the order in which they were handed
/// over; a lookup by key finds the first member with that key.
#[derive(Debug)]
pub enum Json {
    Null,
    Bool(bool),
    Number(JsonNumber),
    Str(String),
    Array(Vec<Json>),
    Object(Vec<(String, Json)>),
}

/// The document serde_json reads from `text`, copied into a `Json`; `None`
/// when serde_json refuses the text.
pub uninterp spec fn parsed_json(text: Seq<char>) -> Option<Json>;

/// Relies on serde_json::from_str: its result depends on the text alone, and
/// empty input fails (end of input before any value).
#[verifier::external_body]
fn parse_json(text: &str) -> (r: Option<Json>)
    ensures
        r == parsed_json(text@),
        text@.len() == 0 ==> r is None,
{
    serde_json::from_str::<serde_json::Value>(text).ok().map(json_of_value)
}

/// Relies on serde_json::Value's variants: one arm per variant, the contents
/// moved over as they are; object members in the map's iteration order.
#[verifier::external_body]
fn json_of_value(v: serde_json::Value) -> Json {
    match v {
        serde_json::Value::Null => Json::Null,
        serde_json::Value::Bool(b) => Json::Bool(b),
        serde_json::Value::Number(n) => Json::Number(number_of(&n)),
        serde_json::Value::String(s) => Json::Str(s),
        serde_json::Value::Array(a) => Json::Array(a.into_iter().map(json_of_value).collect()),
        serde_json::Value::Object(m) => Json::Object(
            m.into_iter().map(|(k, x)| (k, json_of_value(x))).collect(),
        ),
    }
}

fn number_of(n: &serde_json::Number) -> JsonNumber {
    match n.as_u64() {
        Some(u) => JsonNumber::Unsigned(u),
        None => match n.as_i64() {
            Some(i) => JsonNumber::Signed(i),
            None => JsonNumber::Float(n.to_string()),
        },
    }
}

/// The value of the first member of `members` whose key is `key`.
pub open spec fn lookup(members: Seq<(String, Json)>, key: Seq<char>) -> Option<Json>
    decreases members.len(),
{
    if members.len() == 0 {
        None
    } else if members[0].0@ == key {
        Some(members[0].1)
    } else {
        lookup(members.drop_first(), key)
    }
}

/// Position of the first member of `members` whose key is `key`.
fn key_index(members: &Vec<(String, Json)>, key: &str) -> (r: Option<usize>)
    ensures
        r matches Some(i) ==> i < members@.len() && lookup(members@, key@) == Some(
            members@[i as int].1,
        ),
        r is None ==> lookup(members@, key@) is None,
{
    let k = String::from_str(key);
    let mut i: usize = 0;
    assert(members@.subrange(0, members@.len() as int) =~= members@);
    while i < members.len()
        invariant
            i <= members@.len(),
            k@ == key@,
            lookup(members@.subrange(i as int, members@.len() as int), key@) == lookup(
                members@,
                key@,
            ),
        decreases members.len() - i,
    {
        let ghost rest = members@.subrange(i as int, members@.len() as int);
        assert(rest.drop_first() =~= members@.subrange(i + 1, members@.len() as int));
        if members[i].0 == k {
            return Some(i);
        }
        i = i + 1;
    }
    None
}

impl Json {
    /// The member `key` of an object; `None` for a missing key or a value
    /// that is not an object.
    pub open spec fn field(self, key: Seq<char>) -> Option<Json> {
        match self {
            Json::Object(members) => lookup(members@, key),
            _ => None,
        }
    }

    /// The string held by a JSON string.
    pub open spec fn str_value(self) -> Option<String> {
        match self {
            Json::Str(s) => Some(s),
            _ => None,
        }
    }

    /// The number held, if it is a non-negative integer that fits a `u64`.
    pub open spec fn u64_value(self) -> Option<u64> {
        match self {
            Json::Number(JsonNumber::Unsigned(u)) => Some(u),
            Json::Number(JsonNumber::Signed(i)) => if i >= 0 {
                Some(i as u64)
            } else {
                None
            },
            _ => None,
        }
    }

    /// Parses JSON text as serde_json reads it; `None` when serde_json refuses
    /// the text, among others when it is empty.
    pub fn parse(text: &str) -> (r: Option<Json>)
        ensures
            r == parsed_json(text@),
            text@.len() == 0 ==> r is None,
    {
        parse_json(text)
    }

    /// The member `key` of an object.
    pub fn get(&self, key: &str) -> (r: Option<&Json>)
        ensures
            r matches Some(j) ==> self.field(key@) == Some(*j),
            r is None ==> self.field(key@) is None,
    {
        match self {
            Json::Object(members) => match key_index(members, key) {
                Some(i) => Some(&members[i].1),
                None => None,
            },
            _ => None,
        }
    }

    /// Takes the member `key` out of an object.
    pub fn take(self, key: &str) -> (r: Option<Json>)
        ensures
            r == self.field(key@),
    {
        match self {
            Json::Object(mut members) => match key_index(&members, key) {
                Some(i) => {
                    let m = members.remove(i);
                    Some(m.1)
                },
                None => None,
            },
            _ => None,
        }
    }

    /// The text of a JSON string.
    pub fn as_str(&self) -> (r: Option<&str>)
        ensures
            r matches Some(s) ==> self.str_value() matches Some(t) && s@ == t@,
            r is None ==> self.str_value() is None,
    {
        match self {
            Json::Str(s) => Some(s.as_str()),
            _ => None,
        }
    }

    /// The number, if it is a non-negative integer that fits a `u64`.
    pub fn as_u64(&self) -> (r: Option<u64>)
        ensures
            r == self.u64_value(),
    {
        match self {
            Json::Number(JsonNumber::Unsigned(u)) => Some(*u),
            Json::Number(JsonNumber::Signed(i)) => if *i >= 0 {
                Some(*i as u64)
            } else {
                None
            },
            _ => None,
        }
    }
}

} // verus!
