//! A JSON document as plain values, and the lookups the library makes in one.
//!
//! Numbers are kept as their decimal text. An object keeps its members in
//! order; a lookup by key finds the first member with that key.

use vstd::prelude::*;

verus! {

/// A JSON value.
#[derive(Debug, PartialEq)]
pub enum Json {
    Null,
    Bool(bool),
    /// A number, as its JSON text.
    Number(String),
    Str(String),
    Array(Vec<Json>),
    Object(Vec<(String, Json)>),
}

/// The value of the first member of `members` at or after `i` whose key is `key`.
pub open spec fn find_member(members: Seq<(String, Json)>, key: Seq<char>, i: int) -> Option<Json>
    decreases members.len() - i,
{
    if i < 0 || i >= members.len() {
        None
    } else if members[i].0@ == key {
        Some(members[i].1)
    } else {
        find_member(members, key, i + 1)
    }
}

/// `v[key]`: the member of an object with that key; nothing for a missing
/// key or a value that is not an object.
pub open spec fn spec_field(v: Json, key: Seq<char>) -> Option<Json> {
    match v {
        Json::Object(members) => find_member(members@, key, 0),
        _ => None,
    }
}

/// `v[i]`: the element of an array at that position; nothing when out of
/// range or for a value that is not an array.
pub open spec fn spec_element(v: Json, i: int) -> Option<Json> {
    match v {
        Json::Array(items) => if 0 <= i < items@.len() {
            Some(items@[i])
        } else {
            None
        },
        _ => None,
    }
}

/// The value a borrowed lookup result refers to.
pub open spec fn deref_opt(r: Option<&Json>) -> Option<Json> {
    match r {
        Some(x) => Some(*x),
        None => None,
    }
}

/// The text of a string value.
pub open spec fn spec_as_str(v: Option<Json>) -> Option<Seq<char>> {
    match v {
        Some(Json::Str(s)) => Some(s@),
        _ => None,
    }
}

impl Json {
    /// The member of an object with the given key.
    pub fn field<'a>(&'a self, key: &str) -> (r: Option<&'a Json>)
        ensures
            deref_opt(r) == spec_field(*self, key@),
    {
        match self {
            Json::Object(members) => {
                let mut i: usize = 0;
                while i < members.len()
                    invariant
                        i <= members@.len(),
                        spec_field(*self, key@) == find_member(members@, key@, 0),
                        find_member(members@, key@, 0) == find_member(members@, key@, i as int),
                    decreases members@.len() - i,
                {
                    if crate::text::str_eq(members[i].0.as_str(), key) {
                        assert(find_member(members@, key@, i as int) == Some(members@[i as int].1));
                        return Some(&members[i].1);
                    }
                    i = i + 1;
                }
                None
            },
            _ => None,
        }
    }

    /// The element of an array at the given position.
    pub fn element<'a>(&'a self, i: usize) -> (r: Option<&'a Json>)
        ensures
            deref_opt(r) == spec_element(*self, i as int),
    {
        match self {
            Json::Array(items) => if i < items.len() {
                Some(&items[i])
            } else {
                None
            },
            _ => None,
        }
    }

    /// A string value from a literal.
    pub fn text(s: &str) -> (r: Json)
        ensures
            r matches Json::Str(t) && t@ == s@,
    {
        Json::Str(String::from_str(s))
    }
}

/// The text of a string value, if the value is one.
pub fn as_str(v: Option<&Json>) -> (r: Option<String>)
    ensures
        match r {
            Some(s) => spec_as_str(deref_opt(v)) == Some(s@),
            None => spec_as_str(deref_opt(v)) is None,
        },
{
    match v {
        Some(Json::Str(s)) => Some(s.clone()),
        _ => None,
    }
}

/// The lookup finds the member at position `i` when no earlier member has its key.
pub proof fn lemma_find_member_at(members: Seq<(String, Json)>, key: Seq<char>, i: int)
    requires
        0 <= i < members.len(),
        members[i].0@ == key,
        forall|j: int| 0 <= j < i ==> members[j].0@ != key,
    ensures
        find_member(members, key, 0) == Some(members[i].1),
{
    lemma_find_member_from(members, key, 0, i);
}

proof fn lemma_find_member_from(members: Seq<(String, Json)>, key: Seq<char>, k: int, i: int)
    requires
        0 <= k <= i < members.len(),
        members[i].0@ == key,
        forall|j: int| 0 <= j < i ==> members[j].0@ != key,
    ensures
        find_member(members, key, k) == Some(members[i].1),
    decreases i - k,
{
    if k < i {
        lemma_find_member_from(members, key, k + 1, i);
    }
}

/// An object `{"error": error, "message": message}`, exactly these two
/// members in this order, the body of an error answer.
pub open spec fn is_error_body(r: Json, error: Seq<char>, message: Seq<char>) -> bool {
    &&& has_keys(r, seq!["error"@, "message"@])
    &&& is_text_member(member_at(r, 0), "error"@, error)
    &&& is_text_member(member_at(r, 1), "message"@, message)
}

/// An array whose elements are exactly the given texts.
pub open spec fn is_text_array(v: Json, texts: Seq<Seq<char>>) -> bool {
    match v {
        Json::Array(items) => items@.len() == texts.len() && forall|i: int|
            0 <= i < texts.len() ==> spec_as_str(Some(#[trigger] items@[i])) == Some(texts[i]),
        _ => false,
    }
}

/// An object whose keys are exactly the given ones, in order.
pub open spec fn has_keys(v: Json, keys: Seq<Seq<char>>) -> bool {
    match v {
        Json::Object(m) => m@.len() == keys.len() && forall|i: int|
            0 <= i < keys.len() ==> (#[trigger] m@[i]).0@ == keys[i],
        _ => false,
    }
}

/// The member of an object at a position.
pub open spec fn member_at(v: Json, i: int) -> (String, Json) {
    match v {
        Json::Object(m) => m@[i],
        _ => arbitrary(),
    }
}

/// In an object whose keys are the given ones, a key that no earlier member
/// has is found at its own position.
pub proof fn lemma_member_lookup(v: Json, keys: Seq<Seq<char>>, i: int)
    requires
        has_keys(v, keys),
        0 <= i < keys.len(),
        forall|j: int| 0 <= j < i ==> keys[j] != keys[i],
    ensures
        spec_field(v, keys[i]) == Some(member_at(v, i).1),
{
    if let Json::Object(m) = v {
        assert(m@[i].0@ == keys[i]);
        assert forall|j: int| 0 <= j < i implies m@[j].0@ != keys[i] by {
            assert(m@[j].0@ == keys[j]);
        }
        lemma_find_member_at(m@, keys[i], i);
    }
}

/// The body of an error answer.
pub fn error_body(error: &str, message: &str) -> (r: Json)
    ensures
        is_error_body(r, error@, message@),
        spec_as_str(spec_field(r, "error"@)) == Some(error@),
        spec_as_str(spec_field(r, "message"@)) == Some(message@),
{
    let mut m: Vec<(String, Json)> = Vec::new();
    m.push((String::from_str("error"), Json::text(error)));
    m.push((String::from_str("message"), Json::text(message)));
    proof {
        reveal_strlit("error");
        reveal_strlit("message");
        assert("error"@ != "message"@) by { assert("error"@.len() != "message"@.len()); }
        lemma_find_member_at(m@, "error"@, 0);
        lemma_find_member_at(m@, "message"@, 1);
    }
    Json::Object(m)
}

/// A member with the given key whose value is the given text.
pub open spec fn is_text_member(m: (String, Json), key: Seq<char>, text: Seq<char>) -> bool {
    m.0@ == key && spec_as_str(Some(m.1)) == Some(text)
}

/// A member with the given key and value.
pub fn member(key: &str, value: Json) -> (r: (String, Json))
    ensures
        r.0@ == key@,
        r.1 == value,
{
    (String::from_str(key), value)
}

/// A member with the given key whose value is the given text.
pub fn text_member(key: &str, text: &str) -> (r: (String, Json))
    ensures
        is_text_member(r, key@, text@),
{
    (String::from_str(key), Json::text(text))
}

/// A member with the given key whose value is the given owned text.
pub fn string_member(key: &str, text: String) -> (r: (String, Json))
    ensures
        is_text_member(r, key@, text@),
{
    (String::from_str(key), Json::Str(text))
}

} // verus!
