//! Session policy and subscription reconciliation.
//!
//! A run without a client-id suffix asks the broker for a clean session:
//! nothing the broker remembers about this client is trusted, and a
//! subscription is always registered anew.  A run with a suffix asks for a
//! persistent session with a long expiry, so that a brief restart keeps the
//! subscription alive on the broker; the broker's connection acknowledgment
//! then tells us whether the subscription is already registered.

use vstd::prelude::*;

verus! {

/// How long a persistent session is asked to survive between connections,
/// in seconds (100 hours).
pub const SESSION_EXPIRY_SECONDS: u64 = 360000;

/// Whether the broker should keep subscription state for this client between
/// connections, and for how long.
#[derive(Clone, Copy, PartialEq, Eq, Structural, Debug)]
pub struct SessionPolicy {
    pub persistent: bool,
    pub session_expiry_seconds: u64,
}

/// The policy a run derives from whether a client-id suffix was supplied:
/// no suffix means a clean session, a suffix means a persistent one with the
/// long expiry window.
pub open spec fn policy_for(has_suffix: bool) -> SessionPolicy {
    SessionPolicy {
        persistent: has_suffix,
        session_expiry_seconds: if has_suffix {
            SESSION_EXPIRY_SECONDS as u64
        } else {
            0
        },
    }
}

/// Build the session policy for a run.
pub fn build_session_policy(has_suffix: bool) -> (p: SessionPolicy)
    ensures
        p == policy_for(has_suffix),
{
    if has_suffix {
        SessionPolicy { persistent: true, session_expiry_seconds: SESSION_EXPIRY_SECONDS }
    } else {
        SessionPolicy { persistent: false, session_expiry_seconds: 0 }
    }
}

/// Build the session policy directly from the client-id suffix: an empty
/// suffix means a clean session.
pub fn session_policy_for_suffix(suffix: &str) -> (p: SessionPolicy)
    ensures
        p == policy_for(suffix@.len() != 0),
{
    build_session_policy(!suffix.is_empty())
}

/// Whether a subscribe request must be issued after connecting.  A clean
/// session never trusts the broker's `session_present` flag; a persistent
/// session skips the subscribe exactly when the broker acknowledges that the
/// session (and with it the subscription) is already there.
pub open spec fn spec_must_subscribe(policy: SessionPolicy, session_present: bool) -> bool {
    !policy.persistent || !session_present
}

/// Decide whether to issue a subscribe request for this connection.
pub fn must_subscribe(policy: &SessionPolicy, session_present: bool) -> (r: bool)
    ensures
        r == spec_must_subscribe(*policy, session_present),
{
    !policy.persistent || !session_present
}

/// What the broker's connection acknowledgment tells us: the negotiated
/// protocol version and whether a session for this client identity was
/// already present on the broker.
#[derive(Clone, Copy, PartialEq, Eq, Structural, Debug)]
pub struct ConnectionAck {
    pub mqtt_version: u32,
    pub session_present: bool,
}

/// The topic filter covering a whole topic prefix: `<prefix>/#`.
pub open spec fn spec_topic_filter(prefix: Seq<char>) -> Seq<char> {
    prefix + "/#"@
}

/// Build the topic filter for a topic prefix.
pub fn topic_filter(prefix: &str) -> (r: String)
    ensures
        r@ == spec_topic_filter(prefix@),
{
    let mut f = String::from_str(prefix);
    f.append("/#");
    f
}

/// The subscription a connection needs: its topic filter, and whether the
/// broker already has it registered (so that no subscribe call is made).
pub struct SubscriptionState {
    pub topic_filter: String,
    pub already_registered: bool,
}

/// Reconcile the subscription for a fresh connection: learn from the
/// acknowledgment whether the broker already holds it, and fix the topic
/// filter to register otherwise.  Runs once per successful connect.
pub fn plan_subscription(policy: &SessionPolicy, ack: &ConnectionAck, topic_prefix: &str) -> (s:
    SubscriptionState)
    ensures
        s.topic_filter@ == spec_topic_filter(topic_prefix@),
        s.already_registered == !spec_must_subscribe(*policy, ack.session_present),
{
    SubscriptionState {
        topic_filter: topic_filter(topic_prefix),
        already_registered: !must_subscribe(policy, ack.session_present),
    }
}

impl SubscriptionState {
    /// Whether a subscribe request still has to be issued for this connection.
    pub fn needs_registration(&self) -> (r: bool)
        ensures
            r == !self.already_registered,
    {
        !self.already_registered
    }
}

/// A run without a suffix uses a clean session, and a clean session
/// subscribes unconditionally: the broker's `session_present` flag is never
/// trusted to stand in for a registration.
pub proof fn lemma_clean_session_always_subscribes(session_present: bool)
    ensures
        spec_must_subscribe(policy_for(false), session_present),
{
}

/// With a persistent session whose acknowledgment reports the session as
/// present, no subscribe call is issued: the broker remembers it.
pub proof fn lemma_present_session_skips_subscribe()
    ensures
        !spec_must_subscribe(policy_for(true), true),
{
}

} // verus!
