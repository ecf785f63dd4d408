//! Incoming messages and their metadata.
//!
//! A message carries its topic, a payload of raw bytes, and string-keyed
//! string metadata (the user properties of the transport).  A message is
//! consumed exactly once by persistence planning and never retained.

use vstd::prelude::*;

verus! {

/// One message as delivered by the transport.
pub struct IncomingMessage {
    pub topic: String,
    pub payload: Vec<u8>,
    pub metadata: Vec<(String, String)>,
}

/// The value of the first metadata entry whose key is `key`, if any.
pub open spec fn find_meta(metadata: Seq<(String, String)>, key: Seq<char>) -> Option<Seq<char>>
    decreases metadata.len(),
{
    if metadata.len() == 0 {
        None
    } else if metadata[0].0@ == key {
        Some(metadata[0].1@)
    } else {
        find_meta(metadata.drop_first(), key)
    }
}

/// Look a key up in a message's metadata, returning the value of the first
/// entry with that key.
pub fn find_user_property(metadata: &Vec<(String, String)>, key: &String) -> (r: Option<String>)
    ensures
        match r {
            Some(v) => find_meta(metadata@, key@) == Some(v@),
            None => find_meta(metadata@, key@) is None,
        },
{
    let n: usize = metadata.len();
    proof {
        assert(metadata@.skip(0) =~= metadata@);
    }
    for i in 0..n
        invariant
            n == metadata@.len(),
            find_meta(metadata@, key@) == find_meta(metadata@.skip(i as int), key@),
    {
        proof {
            assert(metadata@.skip(i as int)[0] == metadata@[i as int]);
            assert(metadata@.skip(i as int).drop_first() =~= metadata@.skip(i + 1));
        }
        let pair = &metadata[i];
        if pair.0 == *key {
            return Some(pair.1.clone());
        }
    }
    proof {
        assert(metadata@.skip(n as int) =~= Seq::<(String, String)>::empty());
    }
    None
}

} // verus!
