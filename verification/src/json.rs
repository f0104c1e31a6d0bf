//! A plain model of JSON documents, and key lookup over object entries.

use vstd::prelude::*;
use vstd::string::StringExecFns;

verus! {

/// A JSON document held as plain data. Numbers are kept as signed
/// integers: every numeric field this API carries is integral.
/// Object entries keep the order in which the document gave them.
#[derive(Debug)]
pub enum JsonValue {
    Null,
    Bool(bool),
    Int(i64),
    Str(String),
    Arr(Vec<JsonValue>),
    Obj(Vec<(String, JsonValue)>),
}

/// The value under the first entry of `entries` whose key reads `k`.
pub open spec fn lookup(entries: Seq<(String, JsonValue)>, k: Seq<char>) -> Option<JsonValue>
    decreases entries.len(),
{
    if entries.len() == 0 {
        None
    } else if entries[0].0@ == k {
        Some(entries[0].1)
    } else {
        lookup(entries.drop_first(), k)
    }
}

/// The characters of the string under key `k`, where that entry holds a string.
pub open spec fn str_field(entries: Seq<(String, JsonValue)>, k: Seq<char>) -> Option<Seq<char>> {
    match lookup(entries, k) {
        Some(JsonValue::Str(s)) => Some(s@),
        _ => None,
    }
}

/// The boolean under key `k`, where that entry holds a boolean.
pub open spec fn bool_field(entries: Seq<(String, JsonValue)>, k: Seq<char>) -> Option<bool> {
    match lookup(entries, k) {
        Some(JsonValue::Bool(b)) => Some(b),
        _ => None,
    }
}

/// The integer under key `k`, where that entry holds an integer.
pub open spec fn int_field(entries: Seq<(String, JsonValue)>, k: Seq<char>) -> Option<i64> {
    match lookup(entries, k) {
        Some(JsonValue::Int(n)) => Some(n),
        _ => None,
    }
}

proof fn lemma_lookup_skip_one(entries: Seq<(String, JsonValue)>, k: Seq<char>, i: int)
    requires
        0 <= i < entries.len(),
        entries[i].0@ != k,
    ensures
        lookup(entries.skip(i), k) == lookup(entries.skip(i + 1), k),
{
    assert(entries.skip(i)[0] == entries[i]);
    assert(entries.skip(i).drop_first() =~= entries.skip(i + 1));
}

/// A borrow of the value under the first entry whose key reads `k`.
pub fn obj_get<'a>(entries: &'a Vec<(String, JsonValue)>, k: &str) -> (r: Option<&'a JsonValue>)
    ensures
        match r {
            Some(v) => lookup(entries@, k@) == Some(*v),
            None => lookup(entries@, k@) is None,
        },
{
    let key = String::from_str(k);
    proof {
        assert(entries@.skip(0) =~= entries@);
    }
    let mut i: usize = 0;
    while i < entries.len()
        invariant
            i <= entries@.len(),
            key@ == k@,
            lookup(entries@, k@) == lookup(entries@.skip(i as int), k@),
        decreases entries@.len() - i,
    {
        let pair = &entries[i];
        if pair.0 == key {
            proof {
                assert(entries@.skip(i as int)[0] == entries@[i as int]);
            }
            return Some(&pair.1);
        }
        proof {
            lemma_lookup_skip_one(entries@, k@, i as int);
        }
        i += 1;
    }
    proof {
        assert(entries@.skip(i as int) =~= Seq::<(String, JsonValue)>::empty());
    }
    None
}

} // verus!
