use vstd::prelude::*;

verus! {

/// A JSON number, kept exactly as it arrived: a non-negative integer, a
/// negative integer, or a floating-point value given by its IEEE-754 bits.
#[derive(Clone, Copy, Debug, PartialEq, Eq)]
pub enum JsonNumber {
    PosInt(u64),
    NegInt(i64),
    Float(u64),
}

/// A JSON value. An object is the list of its members in order; where a key
/// occurs more than once, its first member is the one that counts.
#[derive(Debug)]
pub enum Json {
    Null,
    Bool(bool),
    Number(JsonNumber),
    Str(String),
    Array(Vec<Json>),
    Object(Vec<(String, Json)>),
}

} // verus!

verus! {

/// The value of the first member of `members` whose key is `key`, looking from
/// position `i` on.
pub open spec fn member_from(members: Seq<(String, Json)>, key: Seq<char>, i: int) -> Option<Json>
    decreases members.len() - i,
{
    if i < 0 || i >= members.len() {
        None
    } else if members[i].0@ == key {
        Some(members[i].1)
    } else {
        member_from(members, key, i + 1)
    }
}

/// The value of the first member of `members` whose key is `key`.
pub open spec fn member(members: Seq<(String, Json)>, key: Seq<char>) -> Option<Json> {
    member_from(members, key, 0)
}

/// The member `key` of an object; nothing for a value that is not an object.
pub open spec fn field(value: Json, key: Seq<char>) -> Option<Json> {
    match value {
        Json::Object(members) => member(members@, key),
        _ => None,
    }
}

/// A value read as an unsigned 64-bit integer.
pub open spec fn u64_of(value: Json) -> Option<u64> {
    match value {
        Json::Number(JsonNumber::PosInt(n)) => Some(n),
        Json::Number(JsonNumber::NegInt(n)) => if n >= 0 {
            Some(n as u64)
        } else {
            None
        },
        _ => None,
    }
}

/// A value read as a `usize`.
pub open spec fn usize_of(value: Json) -> Option<usize> {
    match u64_of(value) {
        Some(n) => if n <= usize::MAX {
            Some(n as usize)
        } else {
            None
        },
        None => None,
    }
}

/// A value read as a string.
pub open spec fn str_of(value: Json) -> Option<Seq<char>> {
    match value {
        Json::Str(s) => Some(s@),
        _ => None,
    }
}

/// A list of values read as a list of strings: defined when every item is a
/// string.
pub open spec fn strings_of(items: Seq<Json>) -> Option<Seq<Seq<char>>> {
    if forall|i: int| 0 <= i < items.len() ==> (#[trigger] items[i]) is Str {
        Some(Seq::new(items.len(), |i: int| items[i]->Str_0@))
    } else {
        None
    }
}

/// A value read as an array of strings.
pub open spec fn string_list_of(value: Json) -> Option<Seq<Seq<char>>> {
    match value {
        Json::Array(items) => strings_of(items@),
        _ => None,
    }
}

/// The views of a vector of strings.
pub open spec fn views_of(v: Seq<String>) -> Seq<Seq<char>> {
    v.map_values(|s: String| s@)
}

/// Adding a member at the end changes the lookup of its key only where the key
/// was absent.
pub proof fn lemma_member_push(members: Seq<(String, Json)>, entry: (String, Json), key: Seq<char>)
    ensures
        member(members.push(entry), key) == (if member(members, key) is Some {
            member(members, key)
        } else if entry.0@ == key {
            Some(entry.1)
        } else {
            None
        }),
{
    lemma_member_from_push(members, entry, key, 0);
}

proof fn lemma_member_from_push(members: Seq<(String, Json)>, entry: (String, Json), key: Seq<char>, i: int)
    requires
        0 <= i <= members.len(),
    ensures
        member_from(members.push(entry), key, i) == (if member_from(members, key, i) is Some {
            member_from(members, key, i)
        } else if entry.0@ == key {
            Some(entry.1)
        } else {
            None
        }),
    decreases members.len() - i,
{
    let pushed = members.push(entry);
    if i < members.len() {
        assert(pushed[i] == members[i]);
        lemma_member_from_push(members, entry, key, i + 1);
    } else {
        assert(pushed[i] == entry);
        assert(member_from(pushed, key, i + 1) is None);
    }
}

/// An owned string with the characters of `s`.
pub fn text(s: &str) -> (r: String)
    ensures
        r@ == s@,
{
    String::from_str(s)
}

/// Looks up the member `key` of an object's members: the first one with that key.
pub fn get_member<'a>(members: &'a Vec<(String, Json)>, key: &str) -> (r: Option<&'a Json>)
    ensures
        match r {
            Some(v) => member(members@, key@) == Some(*v),
            None => member(members@, key@) is None,
        },
{
    let name = text(key);
    let mut i: usize = 0;
    while i < members.len()
        invariant
            i <= members.len(),
            name@ == key@,
            member(members@, key@) == member_from(members@, key@, i as int),
        decreases members.len() - i,
    {
        if members[i].0 == name {
            return Some(&members[i].1);
        }
        i += 1;
    }
    None
}

/// Reads a value as an unsigned 64-bit integer.
pub fn as_u64(value: &Json) -> (r: Option<u64>)
    ensures
        r == u64_of(*value),
{
    match value {
        Json::Number(JsonNumber::PosInt(n)) => Some(*n),
        Json::Number(JsonNumber::NegInt(n)) => if *n >= 0 {
            Some(*n as u64)
        } else {
            None
        },
        _ => None,
    }
}

/// Reads a value as a `usize`.
pub fn as_usize(value: &Json) -> (r: Option<usize>)
    ensures
        r == usize_of(*value),
{
    match as_u64(value) {
        Some(n) => if n <= usize::MAX as u64 {
            Some(n as usize)
        } else {
            None
        },
        None => None,
    }
}

/// Reads a value as a string.
pub fn as_string(value: &Json) -> (r: Option<String>)
    ensures
        match r {
            Some(s) => str_of(*value) == Some(s@),
            None => str_of(*value) is None,
        },
{
    match value {
        Json::Str(s) => Some(s.clone()),
        _ => None,
    }
}

/// Reads a value as an array of strings.
pub fn as_string_list(value: &Json) -> (r: Option<Vec<String>>)
    ensures
        match r {
            Some(v) => string_list_of(*value) == Some(views_of(v@)),
            None => string_list_of(*value) is None,
        },
{
    match value {
        Json::Array(items) => decode_strings(items),
        _ => None,
    }
}

fn decode_strings(items: &Vec<Json>) -> (r: Option<Vec<String>>)
    ensures
        match r {
            Some(v) => strings_of(items@) == Some(views_of(v@)),
            None => strings_of(items@) is None,
        },
{
    let mut out: Vec<String> = Vec::new();
    let mut i: usize = 0;
    while i < items.len()
        invariant
            i <= items.len(),
            out@.len() == i,
            forall|k: int| 0 <= k < i ==> (#[trigger] items@[k]) is Str && out@[k]@ == items@[k]->Str_0@,
        decreases items.len() - i,
    {
        match &items[i] {
            Json::Str(s) => out.push(s.clone()),
            _ => {
                assert(!(items@[i as int] is Str));
                return None;
            },
        }
        i += 1;
    }
    assert(views_of(out@) =~= Seq::new(items@.len(), |k: int| items@[k]->Str_0@));
    Some(out)
}

/// Builds an array of strings.
pub fn string_list(v: &Vec<String>) -> (r: Json)
    ensures
        string_list_of(r) == Some(views_of(v@)),
{
    let mut items: Vec<Json> = Vec::new();
    let mut i: usize = 0;
    while i < v.len()
        invariant
            i <= v.len(),
            items@.len() == i,
            forall|k: int| 0 <= k < i ==> (#[trigger] items@[k]) is Str && items@[k]->Str_0@ == v@[k]@,
        decreases v.len() - i,
    {
        items.push(Json::Str(v[i].clone()));
        i += 1;
    }
    let r = Json::Array(items);
    assert(views_of(v@) =~= Seq::new(items@.len(), |k: int| items@[k]->Str_0@));
    r
}

/// The member `key` of an object read by `read`; nothing where the member is
/// absent or does not read.
pub open spec fn read_field<V>(value: Json, key: Seq<char>, read: spec_fn(Json) -> Option<V>) -> Option<V> {
    match field(value, key) {
        Some(j) => read(j),
        None => None,
    }
}

/// Looks up the member `key` of an object; nothing for a value that is not an
/// object.
pub fn get_field<'a>(value: &'a Json, key: &str) -> (r: Option<&'a Json>)
    ensures
        match r {
            Some(v) => field(*value, key@) == Some(*v),
            None => field(*value, key@) is None,
        },
{
    match value {
        Json::Object(m) => get_member(m, key),
        _ => None,
    }
}

} // verus!
