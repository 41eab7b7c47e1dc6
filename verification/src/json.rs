//! The library's model of a JSON document.
//!
//! The relay answers in JSON. So that the logic that reads those answers
//! can carry exact contracts, the document is modeled as a value of the
//! library's own: a tree over plain strings, booleans and lists. The
//! caller, which performs the transport and the parsing, converts its
//! parsed document into this shape; the conversion is a plain structural
//! walk. The workflow never interprets numbers, so a number is carried
//! as its source text.
//!
//! An object is an ordered list of bindings; the binding nearest the
//! front wins when a key repeats.

use vstd::prelude::*;

verus! {

/// One JSON value.
pub enum JsonValue {
    Null,
    Bool(bool),
    /// A number, carried as its source text, never interpreted.
    Number(String),
    Text(String),
    Array(Vec<JsonValue>),
    Object(Vec<(String, JsonValue)>),
}

/// The value bound to `key` among an object's bindings, scanning from
/// the front.
pub open spec fn spec_object_lookup(pairs: Seq<(String, JsonValue)>, key: Seq<char>) -> Option<
    JsonValue,
>
    decreases pairs.len(),
{
    if pairs.len() == 0 {
        Option::None
    } else if pairs[0].0@ == key {
        Option::Some(pairs[0].1)
    } else {
        spec_object_lookup(pairs.drop_first(), key)
    }
}

/// The member of an object under `key`; `None` for a non-object or a
/// missing key.
pub open spec fn spec_member(v: JsonValue, key: Seq<char>) -> Option<JsonValue> {
    match v {
        JsonValue::Object(pairs) => spec_object_lookup(pairs@, key),
        _ => Option::None,
    }
}

/// The element of an array at position `i`; `None` for a non-array or
/// an index past the end.
pub open spec fn spec_element(v: JsonValue, i: int) -> Option<JsonValue> {
    match v {
        JsonValue::Array(items) => {
            if 0 <= i < items@.len() {
                Option::Some(items@[i])
            } else {
                Option::None
            }
        },
        _ => Option::None,
    }
}

/// The characters of a string value; `None` for anything else.
pub open spec fn spec_text_of(v: JsonValue) -> Option<Seq<char>> {
    match v {
        JsonValue::Text(s) => Option::Some(s@),
        _ => Option::None,
    }
}

/// Takes the value bound to `key` out of an object's bindings.
fn object_take(pairs: Vec<(String, JsonValue)>, key: &str) -> (r: Option<JsonValue>)
    ensures
        r == spec_object_lookup(pairs@, key@),
{
    let owned_key = key.to_owned();
    let ghost pv = pairs@;
    let mut rest = pairs;
    let mut i: usize = 0;
    proof {
        assert(pv.skip(0) =~= pv);
    }
    while i < rest.len()
        invariant
            i <= rest.len(),
            owned_key@ == key@,
            rest@ == pv,
            pairs@ == pv,
            spec_object_lookup(pv, key@) == spec_object_lookup(pv.skip(i as int), key@),
        decreases rest.len() - i,
    {
        proof {
            assert(pv.skip(i as int)[0] == pv[i as int]);
            assert(pv.skip(i as int).drop_first() =~= pv.skip(i as int + 1));
        }
        if rest[i].0 == owned_key {
            proof {
                assert(spec_object_lookup(pv.skip(i as int), key@) == Option::Some(
                    pv[i as int].1,
                ));
            }
            let pair = rest.remove(i);
            return Option::Some(pair.1);
        }
        i = i + 1;
    }
    proof {
        assert(pv.skip(i as int).len() == 0);
    }
    Option::None
}

impl JsonValue {
    /// The member under `key`, by reference.
    pub fn member<'a>(&'a self, key: &str) -> (r: Option<&'a JsonValue>)
        ensures
            match r {
                Option::Some(m) => spec_member(*self, key@) == Option::Some(*m),
                Option::None => spec_member(*self, key@) is None,
            },
    {
        let owned_key = key.to_owned();
        match self {
            JsonValue::Object(pairs) => {
                let ghost pv = pairs@;
                proof {
                    assert(spec_member(*self, key@) == spec_object_lookup(pv, key@));
                }
                let mut i: usize = 0;
                proof {
                    assert(pv.skip(0) =~= pv);
                }
                while i < pairs.len()
                    invariant
                        i <= pairs.len(),
                        pairs@ == pv,
                        owned_key@ == key@,
                        spec_member(*self, key@) == spec_object_lookup(pv, key@),
                        spec_object_lookup(pv, key@) == spec_object_lookup(
                            pv.skip(i as int),
                            key@,
                        ),
                    decreases pairs.len() - i,
                {
                    proof {
                        assert(pv.skip(i as int)[0] == pv[i as int]);
                        assert(pv.skip(i as int).drop_first() =~= pv.skip(i as int + 1));
                    }
                    if pairs[i].0 == owned_key {
                        proof {
                            assert(spec_object_lookup(pv.skip(i as int), key@) == Option::Some(
                                pv[i as int].1,
                            ));
                        }
                        return Option::Some(&pairs[i].1);
                    }
                    i = i + 1;
                }
                proof {
                    assert(pv.skip(i as int).len() == 0);
                }
                Option::None
            },
            _ => Option::None,
        }
    }

    /// The member under `key`, by value; the rest of the document is
    /// dropped.
    pub fn into_member(self, key: &str) -> (r: Option<JsonValue>)
        ensures
            r == spec_member(self, key@),
    {
        match self {
            JsonValue::Object(pairs) => object_take(pairs, key),
            _ => Option::None,
        }
    }

    /// The element at position `i`, by reference.
    pub fn element<'a>(&'a self, i: usize) -> (r: Option<&'a JsonValue>)
        ensures
            match r {
                Option::Some(m) => spec_element(*self, i as int) == Option::Some(*m),
                Option::None => spec_element(*self, i as int) is None,
            },
    {
        match self {
            JsonValue::Array(items) => {
                if i < items.len() {
                    Option::Some(&items[i])
                } else {
                    Option::None
                }
            },
            _ => Option::None,
        }
    }

    /// The element at position `i`, by value; the rest of the document
    /// is dropped.
    pub fn into_element(self, i: usize) -> (r: Option<JsonValue>)
        ensures
            r == spec_element(self, i as int),
    {
        match self {
            JsonValue::Array(items) => {
                if i < items.len() {
                    let mut rest = items;
                    Option::Some(rest.remove(i))
                } else {
                    Option::None
                }
            },
            _ => Option::None,
        }
    }

    /// The elements of an array value, by reference.
    pub fn elements<'a>(&'a self) -> (r: Option<&'a Vec<JsonValue>>)
        ensures
            match r {
                Option::Some(items) => *self == JsonValue::Array(*items),
                Option::None => !(*self is Array),
            },
    {
        match self {
            JsonValue::Array(items) => Option::Some(items),
            _ => Option::None,
        }
    }

    /// The text of a string value.
    pub fn as_text<'a>(&'a self) -> (r: Option<&'a String>)
        ensures
            match r {
                Option::Some(s) => spec_text_of(*self) == Option::Some(s@),
                Option::None => spec_text_of(*self) is None,
            },
    {
        match self {
            JsonValue::Text(s) => Option::Some(s),
            _ => Option::None,
        }
    }

    /// Whether the value is JSON null.
    pub fn is_null(&self) -> (b: bool)
        ensures
            b == (*self is Null),
    {
        match self {
            JsonValue::Null => true,
            _ => false,
        }
    }
}

} // verus!
