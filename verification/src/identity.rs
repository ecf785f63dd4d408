//! Stable client identity.
//!
//! The bridge's identity on the broker is derived from the host name and an
//! optional suffix: `mqtt2file-<host>` or `mqtt2file-<host>-<suffix>`.  The
//! same host and suffix always give the same identity, which is what lets a
//! persistent session be resumed across restarts.

use vstd::prelude::*;

verus! {

/// The client identity derived from a host name and an optional suffix.
pub open spec fn spec_client_id(host: Seq<char>, suffix: Seq<char>) -> Seq<char> {
    if suffix.len() == 0 {
        "mqtt2file-"@ + host
    } else {
        "mqtt2file-"@ + host + "-"@ + suffix
    }
}

/// Build the client identity string.  An empty suffix contributes nothing,
/// not even its separator.
pub fn create_client_id(host: &str, suffix: &str) -> (r: String)
    ensures
        r@ == spec_client_id(host@, suffix@),
{
    let mut id = String::from_str("mqtt2file-");
    id.append(host);
    if !suffix.is_empty() {
        id.append("-");
        id.append(suffix);
    }
    proof {
        assert(id@ =~= spec_client_id(host@, suffix@));
    }
    id
}

} // verus!
