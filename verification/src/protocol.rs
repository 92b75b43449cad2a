//! Plain-value model of the portal's request outcomes.
//!
//! Every correlated request yields exactly one outcome: a numeric
//! status (zero means success, anything else means failure or
//! cancellation) together with a key-value payload.

use vstd::prelude::*;

verus! {

/// One media stream announced by the portal in a start reply: the
/// opaque node identifier under which the media transport exposes it.
/// Further per-stream properties are carried by the portal but read by
/// nothing here, so they are not modelled.
pub struct StreamInfo {
    pub node_id: u32,
}

/// A value carried in an outcome's payload.
pub enum Value {
    Str(String),
    U32(u32),
    Streams(Vec<StreamInfo>),
}

/// The result of one correlated portal request.
pub struct RequestOutcome {
    pub status: u32,
    pub payload: Vec<(String, Value)>,
}

impl RequestOutcome {
    /// A zero status means the request succeeded.
    pub open spec fn succeeded(self) -> bool {
        self.status == 0
    }
}

/// The value of the first payload entry with the given key, if any.
pub open spec fn lookup(payload: Seq<(String, Value)>, key: Seq<char>) -> Option<Value>
    decreases payload.len(),
{
    if payload.len() == 0 {
        None
    } else if payload[0].0@ == key {
        Some(payload[0].1)
    } else {
        lookup(payload.drop_first(), key)
    }
}

proof fn lemma_lookup_skip_step(payload: Seq<(String, Value)>, key: Seq<char>, i: int)
    requires
        0 <= i < payload.len(),
    ensures
        lookup(payload.skip(i), key) == if payload[i].0@ == key {
            Some(payload[i].1)
        } else {
            lookup(payload.skip(i + 1), key)
        },
{
    assert(payload.skip(i)[0] == payload[i]);
    assert(payload.skip(i).drop_first() =~= payload.skip(i + 1));
}

/// Finds the first payload entry with the given key.
pub fn lookup_value<'a>(payload: &'a Vec<(String, Value)>, key: &String) -> (r: Option<&'a Value>)
    ensures
        match r {
            Some(v) => lookup(payload@, key@) == Some(*v),
            None => lookup(payload@, key@) is None,
        },
{
    proof {
        assert(payload@.skip(0) =~= payload@);
    }
    let mut i: usize = 0;
    while i < payload.len()
        invariant
            i <= payload@.len(),
            lookup(payload@, key@) == lookup(payload@.skip(i as int), key@),
        decreases payload@.len() - i,
    {
        proof {
            lemma_lookup_skip_step(payload@, key@, i as int);
        }
        if payload[i].0.eq(key) {
            return Some(&payload[i].1);
        }
        i += 1;
    }
    proof {
        assert(payload@.skip(payload@.len() as int) =~= Seq::<(String, Value)>::empty());
    }
    None
}

} // verus!
