//! A plain model of the JSON shapes that the Wikipedia endpoints return.
//!
//! The caller parses a response body with whatever JSON reader it likes and
//! rebuilds the value in this type; the pipeline stages then interpret it
//! with verified code. Object entries keep the order in which the caller
//! handed them over. Numeric values are never read by this client, so only
//! their presence is recorded.

use vstd::prelude::*;

verus! {

/// A JSON value, as far as this client reads one.
pub enum Json {
    Null,
    Bool(bool),
    Number,
    Text(String),
    Array(Vec<Json>),
    Object(Vec<(String, Json)>),
}

/// The value under `key` among object entries, first match wins.
pub open spec fn entries_get(fields: Seq<(String, Json)>, key: Seq<char>) -> Option<Json>
    decreases fields.len(),
{
    if fields.len() == 0 {
        None
    } else if fields[0].0@ == key {
        Some(fields[0].1)
    } else {
        entries_get(fields.drop_first(), key)
    }
}

/// The value under `key` of `j`, if `j` is an object with such an entry.
pub open spec fn json_field(j: Json, key: Seq<char>) -> Option<Json> {
    match j {
        Json::Object(fields) => entries_get(fields@, key),
        _ => None,
    }
}

/// The text under `key` of `j`, if `j` is an object whose `key` entry is text.
pub open spec fn json_text_field(j: Json, key: Seq<char>) -> Option<Seq<char>> {
    match json_field(j, key) {
        Some(Json::Text(s)) => Some(s@),
        _ => None,
    }
}

proof fn lemma_entries_get_step(fields: Seq<(String, Json)>, key: Seq<char>, i: int)
    requires
        0 <= i < fields.len(),
        fields[i].0@ != key,
    ensures
        entries_get(fields.skip(i), key) == entries_get(fields.skip(i + 1), key),
{
    assert(fields.skip(i).len() > 0);
    assert(fields.skip(i)[0] == fields[i]);
    assert(fields.skip(i).drop_first() =~= fields.skip(i + 1));
}

impl Json {
    /// The entry under `key`, if this value is an object that has one.
    pub fn get_field<'a>(&'a self, key: &str) -> (r: Option<&'a Json>)
        ensures
            match r {
                Some(v) => json_field(*self, key@) == Some(*v),
                None => json_field(*self, key@) is None,
            },
    {
        match self {
            Json::Object(fields) => {
                let n = fields.len();
                let mut i: usize = 0;
                proof {
                    assert(fields@.skip(0) =~= fields@);
                }
                while i < n
                    invariant
                        i <= n,
                        n == fields@.len(),
                        *self == Json::Object(*fields),
                        entries_get(fields@, key@) == entries_get(fields@.skip(i as int), key@),
                    decreases n - i,
                {
                    if crate::text::str_eq(fields[i].0.as_str(), key) {
                        proof {
                            assert(fields@.skip(i as int).len() > 0);
                            assert(fields@.skip(i as int)[0] == fields@[i as int]);
                            assert(fields@[i as int].0@ == key@);
                            assert(entries_get(fields@.skip(i as int), key@)
                                == Some(fields@[i as int].1));
                            assert(*self == Json::Object(*fields));
                            assert(json_field(*self, key@) == Some(fields@[i as int].1));
                        }
                        return Some(&fields[i].1);
                    }
                    proof {
                        lemma_entries_get_step(fields@, key@, i as int);
                    }
                    i += 1;
                }
                proof {
                    assert(fields@.skip(n as int) =~= Seq::<(String, Json)>::empty());
                }
                None
            },
            _ => None,
        }
    }

    /// The text under `key`, if this value is an object whose `key` entry
    /// is text.
    pub fn get_text_field<'a>(&'a self, key: &str) -> (r: Option<&'a String>)
        ensures
            match r {
                Some(s) => json_text_field(*self, key@) == Some(s@),
                None => json_text_field(*self, key@) is None,
            },
    {
        match self.get_field(key) {
            Some(Json::Text(s)) => Some(s),
            _ => None,
        }
    }
}

} // verus!
