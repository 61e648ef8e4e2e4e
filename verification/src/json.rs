//! The metadata document: a dynamically shaped JSON tree with path-based
//! accessors that return optional values. The endpoint's shape is externally
//! controlled, so nothing here assumes a fixed schema; a number is kept as its
//! decimal text, which none of the pipeline reads.

use vstd::prelude::*;

use crate::text::str_eq;

verus! {

/// One node of a parsed JSON document.
#[derive(Debug)]
pub enum JsonValue {
    Null,
    Bool(bool),
    Number(String),
    Text(String),
    Array(Vec<JsonValue>),
    Object(Vec<(String, JsonValue)>),
}

/// The value under `key` in an object's entry list: the first entry whose
/// name matches, or nothing.
pub open spec fn spec_member(entries: Seq<(String, JsonValue)>, key: Seq<char>) -> Option<
    JsonValue,
>
    decreases entries.len(),
{
    if entries.len() == 0 {
        None
    } else if entries[0].0@ == key {
        Some(entries[0].1)
    } else {
        spec_member(entries.skip(1), key)
    }
}

proof fn lemma_member_step(entries: Seq<(String, JsonValue)>, key: Seq<char>, i: int)
    requires
        0 <= i < entries.len(),
        entries[i].0@ != key,
    ensures
        spec_member(entries.skip(i), key) == spec_member(entries.skip(i + 1), key),
{
    assert(entries.skip(i)[0] == entries[i]);
    assert(entries.skip(i).skip(1) =~= entries.skip(i + 1));
}

impl JsonValue {
    /// The value this node holds under `key`, when the node is an object
    /// holding that key.
    pub open spec fn spec_get(self, key: Seq<char>) -> Option<JsonValue> {
        match self {
            JsonValue::Object(entries) => spec_member(entries@, key),
            _ => None,
        }
    }

    /// The characters this node holds, when it is a text node.
    pub open spec fn spec_str(self) -> Option<Seq<char>> {
        match self {
            JsonValue::Text(s) => Some(s@),
            _ => None,
        }
    }

    /// The elements this node holds, when it is an array node.
    pub open spec fn spec_items(self) -> Option<Seq<JsonValue>> {
        match self {
            JsonValue::Array(items) => Some(items@),
            _ => None,
        }
    }

    /// Looks `key` up in this node: the first entry under that name when the
    /// node is an object, absence otherwise.
    pub fn get<'a>(&'a self, key: &str) -> (r: Option<&'a JsonValue>)
        ensures
            match r {
                Some(v) => self.spec_get(key@) == Some(*v),
                None => self.spec_get(key@) is None,
            },
    {
        match self {
            JsonValue::Object(entries) => {
                let ghost all = entries@;
                let n = entries.len();
                let mut i: usize = 0;
                proof {
                    assert(all.skip(0) =~= all);
                }
                while i < n
                    invariant
                        n == all.len(),
                        i <= n,
                        entries@ == all,
                        self.spec_get(key@) == spec_member(all.skip(i as int), key@),
                    decreases n - i,
                {
                    if str_eq(entries[i].0.as_str(), key) {
                        proof {
                            assert(all.skip(i as int)[0] == all[i as int]);
                        }
                        return Some(&entries[i].1);
                    }
                    proof {
                        lemma_member_step(all, key@, i as int);
                    }
                    i += 1;
                }
                proof {
                    assert(all.skip(n as int) =~= Seq::<(String, JsonValue)>::empty());
                }
                None
            },
            _ => None,
        }
    }

    /// The node's characters, when it is a text node.
    pub fn as_str<'a>(&'a self) -> (r: Option<&'a str>)
        ensures
            match r {
                Some(s) => self.spec_str() == Some(s@),
                None => self.spec_str() is None,
            },
    {
        match self {
            JsonValue::Text(s) => Some(s.as_str()),
            _ => None,
        }
    }

    /// The node's elements, when it is an array node.
    pub fn as_array<'a>(&'a self) -> (r: Option<&'a Vec<JsonValue>>)
        ensures
            match r {
                Some(items) => self.spec_items() == Some(items@),
                None => self.spec_items() is None,
            },
    {
        match self {
            JsonValue::Array(items) => Some(items),
            _ => None,
        }
    }
}

} // verus!
