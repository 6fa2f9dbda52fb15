//! The JSON values that a response is made of.

use vstd::prelude::*;

verus! {

/// A JSON value.
///
/// A number is kept as its literal text. An object is the list of its
/// entries in order; a lookup takes the first entry with the key asked for.
#[derive(Debug, PartialEq)]
pub enum Json {
    Null,
    Bool(bool),
    Number(String),
    String(String),
    Array(Vec<Json>),
    Object(Vec<(String, Json)>),
}

/// Whether `i` is the place of the first entry with the key `key`.
pub open spec fn is_first_entry(entries: Seq<(String, Json)>, key: Seq<char>, i: int) -> bool {
    &&& 0 <= i < entries.len()
    &&& entries[i].0@ == key
    &&& forall|j: int| 0 <= j < i ==> (#[trigger] entries[j]).0@ != key
}

/// Whether any entry has the key `key`.
pub open spec fn has_entry(entries: Seq<(String, Json)>, key: Seq<char>) -> bool {
    exists|i: int| 0 <= i < entries.len() && (#[trigger] entries[i]).0@ == key
}

/// The value that an object holds under `key`; nothing where the value is no
/// object or has no such key.
pub open spec fn member(value: Json, key: Seq<char>) -> Option<Json> {
    match value {
        Json::Object(entries) => if has_entry(entries@, key) {
            Some(entries@[choose|i: int| is_first_entry(entries@, key, i)].1)
        } else {
            None
        },
        _ => None,
    }
}

/// The first entry with a key is the only place that `is_first_entry` admits.
pub proof fn lemma_first_entry(entries: Seq<(String, Json)>, key: Seq<char>, i: int)
    requires
        is_first_entry(entries, key, i),
    ensures
        has_entry(entries, key),
        (choose|k: int| is_first_entry(entries, key, k)) == i,
{
    let k = choose|k: int| is_first_entry(entries, key, k);
    assert(is_first_entry(entries, key, k));
    if k < i {
        assert(entries[k].0@ != key);
    }
    if i < k {
        assert(entries[i].0@ != key);
    }
}

/// The place of the first entry with the key, if there is one.
pub fn find_entry(entries: &Vec<(String, Json)>, key: &String) -> (r: Option<usize>)
    ensures
        match r {
            Some(i) => is_first_entry(entries@, key@, i as int),
            None => !has_entry(entries@, key@),
        },
{
    let mut i: usize = 0;
    while i < entries.len()
        invariant
            i <= entries.len(),
            forall|j: int| 0 <= j < i ==> (#[trigger] entries@[j]).0@ != key@,
        decreases entries.len() - i,
    {
        if entries[i].0 == *key {
            return Some(i);
        }
        i += 1;
    }
    None
}

impl Json {
    /// Whether the value is JSON `null`.
    pub fn is_null(&self) -> (r: bool)
        ensures
            r == (*self is Null),
    {
        match self {
            Json::Null => true,
            _ => false,
        }
    }

    /// The text, where the value is a string.
    pub fn as_string(&self) -> (r: Option<&String>)
        ensures
            match *self {
                Json::String(text) => r == Some(&text),
                _ => r.is_none(),
            },
    {
        match self {
            Json::String(text) => Some(text),
            _ => None,
        }
    }

    /// The literal text, where the value is a number.
    pub fn as_number(&self) -> (r: Option<&String>)
        ensures
            match *self {
                Json::Number(text) => r == Some(&text),
                _ => r.is_none(),
            },
    {
        match self {
            Json::Number(text) => Some(text),
            _ => None,
        }
    }

    /// The truth value, where the value is a boolean.
    pub fn as_bool(&self) -> (r: Option<bool>)
        ensures
            match *self {
                Json::Bool(b) => r == Some(b),
                _ => r.is_none(),
            },
    {
        match self {
            Json::Bool(b) => Some(*b),
            _ => None,
        }
    }

    /// The elements, where the value is an array.
    pub fn as_array(&self) -> (r: Option<&Vec<Json>>)
        ensures
            match *self {
                Json::Array(elems) => r == Some(&elems),
                _ => r.is_none(),
            },
    {
        match self {
            Json::Array(elems) => Some(elems),
            _ => None,
        }
    }

    /// The value under `key`, where this value is an object that has the key.
    pub fn get(&self, key: &String) -> (r: Option<&Json>)
        ensures
            match r {
                Some(v) => member(*self, key@) == Some(*v),
                None => member(*self, key@).is_none(),
            },
    {
        match self {
            Json::Object(entries) => {
                match find_entry(entries, key) {
                    Some(i) => {
                        proof {
                            lemma_first_entry(entries@, key@, i as int);
                        }
                        Some(&entries[i].1)
                    },
                    None => None,
                }
            },
            _ => None,
        }
    }

    /// Takes the value under `key` out of this value.
    pub fn into_member(self, key: &String) -> (r: Option<Json>)
        ensures
            r == member(self, key@),
    {
        match self {
            Json::Object(entries) => {
                let mut entries = entries;
                match find_entry(&entries, key) {
                    Some(i) => {
                        proof {
                            lemma_first_entry(entries@, key@, i as int);
                        }
                        let entry = entries.remove(i);
                        Some(entry.1)
                    },
                    None => None,
                }
            },
            _ => None,
        }
    }
}

} // verus!
