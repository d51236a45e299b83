//! The crate's model of a parsed JSON payload. Compositor replies are
//! heterogeneous JSON; the interpreter walks values of this shape and
//! validates structure explicitly instead of indexing by key and hoping.
//! Numbers occur in replies but no rule of this client ever reads one, so the
//! model records only that a number stood there.

use vstd::prelude::*;

verus! {

/// One parsed JSON value.
#[derive(Debug)]
pub enum JsonValue {
    Null,
    Bool(bool),
    /// A JSON number; its value is never consulted.
    Num,
    Str(String),
    Arr(Vec<JsonValue>),
    /// An object as a key-value listing, in the order the parser reports.
    Obj(Vec<(String, JsonValue)>),
}

/// The first value bound to `key` in an object's field listing, if any.
pub open spec fn spec_lookup(fields: Seq<(String, JsonValue)>, key: Seq<char>) -> Option<
    JsonValue,
>
    decreases fields.len(),
{
    if fields.len() == 0 {
        None
    } else if fields[0].0@ == key {
        Some(fields[0].1)
    } else {
        spec_lookup(fields.drop_first(), key)
    }
}

/// Finds the first field named `key` in an object's field listing.
pub fn lookup<'a>(fields: &'a Vec<(String, JsonValue)>, key: &str) -> (r: Option<&'a JsonValue>)
    ensures
        match r {
            Some(v) => spec_lookup(fields@, key@) == Some(*v),
            None => spec_lookup(fields@, key@) is None,
        },
{
    let key_owned = key.to_owned();
    let n = fields.len();
    proof {
        assert(fields@.subrange(0, n as int) =~= fields@);
    }
    let mut i: usize = 0;
    while i < n
        invariant
            i <= n,
            n == fields@.len(),
            key_owned@ == key@,
            spec_lookup(fields@, key@) == spec_lookup(
                fields@.subrange(i as int, n as int),
                key@,
            ),
        decreases n - i,
    {
        proof {
            assert(fields@.subrange(i as int, n as int)[0] == fields@[i as int]);
            assert(fields@.subrange(i as int, n as int).drop_first() =~= fields@.subrange(
                i as int + 1,
                n as int,
            ));
        }
        if fields[i].0 == key_owned {
            return Some(&fields[i].1);
        }
        i += 1;
    }
    proof {
        assert(fields@.subrange(n as int, n as int).len() == 0);
    }
    None
}

} // verus!
