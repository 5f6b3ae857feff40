//! A model of the dynamically-typed values that travel in the broker's
//! notification payloads: a vardict is a string-keyed mapping of such values.
//! The program decodes a vardict into a strongly-typed record once, at the
//! boundary, and never passes the open map around internally.

use vstd::prelude::*;

verus! {

/// One dynamically-typed wire value, reduced to what the protocol reads.
/// Values of shapes the protocol never inspects are carried as `Opaque`.
#[derive(Debug, Clone)]
pub enum WireValue {
    /// A string value.
    Str(String),
    /// An unsigned numeric value.
    Num(u64),
    /// A boolean value.
    Bool(bool),
    /// A value of any other shape; the protocol never reads its contents.
    Opaque,
}

/// A string-keyed mapping of wire values, as carried in a notification
/// payload.  Kept as the sequence of entries in wire order.
pub type Vardict = Vec<(String, WireValue)>;

/// The value bound to `key` in `d`: the first entry whose key matches.
pub open spec fn spec_lookup(d: Seq<(String, WireValue)>, key: Seq<char>) -> Option<WireValue>
    decreases d.len(),
{
    if d.len() == 0 {
        None
    } else if d[0].0@ == key {
        Some(d[0].1)
    } else {
        spec_lookup(d.drop_first(), key)
    }
}

/// Entries before `i` never bind `key`, so the lookup is decided by the rest.
proof fn lemma_lookup_skip(d: Seq<(String, WireValue)>, key: Seq<char>, i: int)
    requires
        0 <= i <= d.len(),
        forall|j: int| 0 <= j < i ==> d[j].0@ != key,
    ensures
        spec_lookup(d, key) == spec_lookup(d.skip(i), key),
    decreases i,
{
    if i > 0 {
        lemma_lookup_skip(d, key, i - 1);
        assert(d.skip(i - 1)[0] == d[i - 1]);
        assert(d.skip(i - 1).drop_first() =~= d.skip(i));
    } else {
        assert(d.skip(0) =~= d);
    }
}

/// Find the value bound to `key` in the vardict `d`, if any.
pub fn lookup<'a>(d: &'a Vardict, key: &String) -> (r: Option<&'a WireValue>)
    ensures
        match r {
            Some(v) => spec_lookup(d@, key@) == Some(*v),
            None => spec_lookup(d@, key@) is None,
        },
{
    let mut i: usize = 0;
    while i < d.len()
        invariant
            0 <= i <= d@.len(),
            forall|j: int| 0 <= j < i ==> d@[j].0@ != key@,
        decreases d@.len() - i,
    {
        if d[i].0 == *key {
            proof {
                lemma_lookup_skip(d@, key@, i as int);
                assert(d@.skip(i as int)[0] == d@[i as int]);
            }
            return Some(&d[i].1);
        }
        i = i + 1;
    }
    proof {
        lemma_lookup_skip(d@, key@, d@.len() as int);
    }
    None
}

} // verus!
