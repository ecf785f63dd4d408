//! The dual-phase consumption loop.
//!
//! The loop has no end-of-stream signal to go by: it must decide on its own
//! when the bus has gone genuinely quiet.  It starts in the draining phase
//! and waits for each event with a bounded timeout.  A first silent period
//! moves it to the idle phase and stops message delivery; a second
//! consecutive one stops the loop for good.  Any message resets the loop to
//! draining, so it never exits after a single quiet stretch that real
//! activity follows.  A disconnect notification hands control to the bounded
//! reconnection policy: on success the loop keeps draining, on exhaustion it
//! stops with a failure.
//!
//! The decisions live here; the surrounding binary performs the waits, the
//! reconnect calls and the file writes, feeding each observed event back in.

use vstd::prelude::*;

use crate::message::{find_meta, IncomingMessage};
use crate::persist::{plan_persist, spec_target_path, PersistPlan};
use crate::reconnect::{spec_reconnect_success, supervise, ReconnectOutcome};

verus! {

/// Where the loop stands between events.
#[derive(Clone, Copy, PartialEq, Eq, Structural, Debug)]
pub enum Phase {
    /// Messages are actively expected.
    Draining,
    /// One timeout has elapsed with no activity; one more wait decides.
    Idle,
}

/// Why the loop stopped.
#[derive(Clone, Copy, PartialEq, Eq, Structural, Debug)]
pub enum LoopOutcome {
    /// Two consecutive silent periods: the work is done.
    Graceful,
    /// A disconnect that the reconnection budget could not repair.
    ReconnectExhausted,
}

/// The loop's state: still running in some phase, or stopped.
#[derive(Clone, Copy, PartialEq, Eq, Structural, Debug)]
pub enum LoopState {
    Running(Phase),
    Stopped(LoopOutcome),
}

/// What kind of thing the wait operation observed.
#[derive(Clone, Copy, PartialEq, Eq, Structural, Debug)]
pub enum EventKind {
    /// A message arrived.
    MessageArrived,
    /// The delivery channel reported a disconnect rather than a timeout.
    DisconnectNotice,
    /// The bounded wait elapsed with nothing to deliver.
    TimedOut,
}

/// What the loop asks its surroundings to do in response to one event.
#[derive(Clone, Copy, PartialEq, Eq, Structural, Debug)]
pub enum Action {
    /// Hand the message to persistence planning and write the file.
    HandleMessage,
    /// Stop the underlying message delivery so no more messages buffer up.
    StopConsuming,
    /// Run the bounded reconnection policy.
    AttemptReconnect,
    /// Nothing; the loop has stopped.
    NoAction,
}

/// One decision of the loop: the state after an event, and the action the
/// event demands.  A message always lands the loop back in the draining
/// phase, whatever phase it was in; a first timeout suspends delivery and a
/// second one stops the loop; a disconnect defers to the reconnection
/// policy, whose verdict `spec_after_reconnect` folds back in.
pub open spec fn spec_step(phase: Phase, event: EventKind) -> (LoopState, Action) {
    match event {
        EventKind::MessageArrived => (LoopState::Running(Phase::Draining), Action::HandleMessage),
        EventKind::DisconnectNotice => (LoopState::Running(phase), Action::AttemptReconnect),
        EventKind::TimedOut => match phase {
            Phase::Draining => (LoopState::Running(Phase::Idle), Action::StopConsuming),
            Phase::Idle => (LoopState::Stopped(LoopOutcome::Graceful), Action::NoAction),
        },
    }
}

/// Decide the loop's response to one observed event.
pub fn step(phase: Phase, event: EventKind) -> (r: (LoopState, Action))
    ensures
        r == spec_step(phase, event),
{
    match event {
        EventKind::MessageArrived => (LoopState::Running(Phase::Draining), Action::HandleMessage),
        EventKind::DisconnectNotice => (LoopState::Running(phase), Action::AttemptReconnect),
        EventKind::TimedOut => match phase {
            Phase::Draining => (LoopState::Running(Phase::Idle), Action::StopConsuming),
            Phase::Idle => (LoopState::Stopped(LoopOutcome::Graceful), Action::NoAction),
        },
    }
}

/// The loop's state after the reconnection policy has run: draining again on
/// success, stopped with a failure on exhaustion.
pub open spec fn spec_after_reconnect(reconnected: bool) -> LoopState {
    if reconnected {
        LoopState::Running(Phase::Draining)
    } else {
        LoopState::Stopped(LoopOutcome::ReconnectExhausted)
    }
}

/// Fold the reconnection policy's verdict back into the loop's state.
pub fn after_reconnect(outcome: &ReconnectOutcome) -> (s: LoopState)
    ensures
        s == spec_after_reconnect(*outcome is Reconnected),
{
    match outcome {
        ReconnectOutcome::Reconnected => LoopState::Running(Phase::Draining),
        ReconnectOutcome::Exhausted => LoopState::Stopped(LoopOutcome::ReconnectExhausted),
    }
}

/// One observed event of a whole run.  A disconnect carries what the
/// transport's reconnect call would return on each successive attempt, so
/// that a run is determined by its trace alone.
pub enum Event {
    Message(IncomingMessage),
    Disconnected(Vec<bool>),
    Timeout,
}

/// What a run of the loop over a trace of events produces: its final state,
/// and the `(filename, payload)` pairs of the messages it persists, in
/// arrival order.  Messages without a filename are dropped; everything after
/// the loop stops is ignored.
pub open spec fn spec_run(state: LoopState, events: Seq<Event>) -> (LoopState, Seq<
    (Seq<char>, Seq<u8>),
>)
    decreases events.len(),
{
    match state {
        LoopState::Stopped(_) => (state, Seq::empty()),
        LoopState::Running(phase) => if events.len() == 0 {
            (state, Seq::empty())
        } else {
            match events[0] {
                Event::Message(m) => {
                    let tail = spec_run(
                        LoopState::Running(Phase::Draining),
                        events.drop_first(),
                    );
                    match find_meta(m.metadata@, "filename"@) {
                        Some(f) => (tail.0, seq![(f, m.payload@)] + tail.1),
                        None => tail,
                    }
                },
                Event::Disconnected(results) => if spec_reconnect_success(results@) {
                    spec_run(LoopState::Running(Phase::Draining), events.drop_first())
                } else {
                    (LoopState::Stopped(LoopOutcome::ReconnectExhausted), Seq::empty())
                },
                Event::Timeout => match phase {
                    Phase::Draining => spec_run(
                        LoopState::Running(Phase::Idle),
                        events.drop_first(),
                    ),
                    Phase::Idle => (LoopState::Stopped(LoopOutcome::Graceful), Seq::empty()),
                },
            }
        },
    }
}

/// The `(filename, payload)` pairs of a sequence of plans.
pub open spec fn plan_entries(plans: Seq<PersistPlan>) -> Seq<(Seq<char>, Seq<u8>)> {
    plans.map(|i: int, p: PersistPlan| (p.filename@, p.payload@))
}

/// The loop state a run stands in, assembled from its pieces.
pub open spec fn state_of(stopped: Option<LoopOutcome>, phase: Phase) -> LoopState {
    match stopped {
        Some(o) => LoopState::Stopped(o),
        None => LoopState::Running(phase),
    }
}

/// The outcome of running the loop over a whole trace.
pub struct RunReport {
    pub state: LoopState,
    pub plans: Vec<PersistPlan>,
}

/// Run the dual-phase loop over a trace of events, starting in the draining
/// phase, and collect the file writes it decides on.  The final state and
/// the persisted `(filename, payload)` pairs are exactly those of
/// `spec_run`, and every plan's path lies under `directory`.
pub fn run_trace(events: Vec<Event>, directory: &str) -> (r: RunReport)
    ensures
        r.state == spec_run(LoopState::Running(Phase::Draining), events@).0,
        plan_entries(r.plans@) == spec_run(LoopState::Running(Phase::Draining), events@).1,
        forall|i: int|
            0 <= i < r.plans@.len() ==> (#[trigger] r.plans@[i]).path@ == spec_target_path(
                directory@,
                r.plans@[i].filename@,
            ),
{
    let ghost full = events@;
    let mut events = events;
    let mut phase = Phase::Draining;
    let mut stopped: Option<LoopOutcome> = None;
    let mut plans: Vec<PersistPlan> = Vec::new();
    while stopped.is_none() && events.len() > 0
        invariant
            spec_run(LoopState::Running(Phase::Draining), full).0 == spec_run(
                state_of(stopped, phase),
                events@,
            ).0,
            spec_run(LoopState::Running(Phase::Draining), full).1 =~= plan_entries(plans@)
                + spec_run(state_of(stopped, phase), events@).1,
            forall|i: int|
                0 <= i < plans@.len() ==> (#[trigger] plans@[i]).path@ == spec_target_path(
                    directory@,
                    plans@[i].filename@,
                ),
        decreases events@.len(),
    {
        let ghost pre = events@;
        let ev = events.remove(0);
        let ghost gev = ev;
        proof {
            assert(pre.remove(0) =~= pre.drop_first());
            assert(pre[0] == gev);
        }
        match ev {
            Event::Message(m) => {
                let ghost tail = spec_run(LoopState::Running(Phase::Draining), events@);
                let ghost old_plans = plans@;
                match plan_persist(m, directory) {
                    Ok(plan) => {
                        let ghost gplan = plan;
                        plans.push(plan);
                        proof {
                            assert(plan_entries(old_plans.push(gplan)) =~= plan_entries(old_plans)
                                + seq![(gplan.filename@, gplan.payload@)]);
                            assert(plan_entries(old_plans) + (seq![
                                (gplan.filename@, gplan.payload@),
                            ] + tail.1) =~= plan_entries(old_plans.push(gplan)) + tail.1);
                        }
                    },
                    Err(_) => {},
                }
                phase = Phase::Draining;
            },
            Event::Disconnected(results) => {
                match supervise(&results) {
                    ReconnectOutcome::Reconnected => {
                        phase = Phase::Draining;
                    },
                    ReconnectOutcome::Exhausted => {
                        stopped = Some(LoopOutcome::ReconnectExhausted);
                    },
                }
            },
            Event::Timeout => {
                match phase {
                    Phase::Draining => {
                        phase = Phase::Idle;
                    },
                    Phase::Idle => {
                        stopped = Some(LoopOutcome::Graceful);
                    },
                }
            },
        }
    }
    let state = match stopped {
        Some(o) => LoopState::Stopped(o),
        None => LoopState::Running(phase),
    };
    proof {
        assert(spec_run(state_of(stopped, phase), events@).1 =~= Seq::<
            (Seq<char>, Seq<u8>),
        >::empty());
        assert(plan_entries(plans@) + Seq::<(Seq<char>, Seq<u8>)>::empty() =~= plan_entries(
            plans@,
        ));
    }
    RunReport { state, plans }
}

/// The loop's wait timeout in seconds, from the configured minutes.
pub fn wait_timeout_seconds(minutes: u32) -> (s: u64)
    ensures
        s == minutes * 60,
{
    minutes as u64 * 60
}

/// A first timeout with no message and no disconnect only suspends the loop:
/// it moves from draining to idle — with delivery stopped — and a run goes
/// on from there.  One silent period never terminates the loop.
pub proof fn lemma_first_timeout_only_suspends(rest: Seq<Event>)
    ensures
        spec_step(Phase::Draining, EventKind::TimedOut) == (
            LoopState::Running(Phase::Idle),
            Action::StopConsuming,
        ),
        spec_run(LoopState::Running(Phase::Draining), seq![Event::Timeout] + rest) == spec_run(
            LoopState::Running(Phase::Idle),
            rest,
        ),
{
    assert((seq![Event::Timeout] + rest)[0] is Timeout);
    assert((seq![Event::Timeout] + rest).drop_first() =~= rest);
}

/// A second consecutive timeout stops the loop gracefully: from the idle
/// phase, silence ends the run, whatever events would have followed.
pub proof fn lemma_second_timeout_stops(rest: Seq<Event>)
    ensures
        spec_step(Phase::Idle, EventKind::TimedOut).0 == LoopState::Stopped(LoopOutcome::Graceful),
        spec_run(LoopState::Running(Phase::Idle), seq![Event::Timeout] + rest) == (
            LoopState::Stopped(LoopOutcome::Graceful),
            Seq::<(Seq<char>, Seq<u8>)>::empty(),
        ),
{
    assert((seq![Event::Timeout] + rest)[0] is Timeout);
}

/// The loop is bounded: from any phase, two consecutive silent periods stop
/// it gracefully — once told to stop (or once the bus is truly done), it
/// never runs past two quiet waits.
pub proof fn lemma_two_silent_periods_always_stop(phase: Phase, rest: Seq<Event>)
    ensures
        spec_run(
            LoopState::Running(phase),
            seq![Event::Timeout, Event::Timeout] + rest,
        ).0 == LoopState::Stopped(LoopOutcome::Graceful),
{
    let tt = seq![Event::Timeout, Event::Timeout] + rest;
    assert(tt[0] is Timeout);
    assert(tt.drop_first() =~= seq![Event::Timeout] + rest);
    lemma_second_timeout_stops(rest);
    match phase {
        Phase::Draining => {
            assert(tt =~= seq![Event::Timeout] + (seq![Event::Timeout] + rest));
            lemma_first_timeout_only_suspends(seq![Event::Timeout] + rest);
        },
        Phase::Idle => {},
    }
}

/// Idle is not sticky: a message arriving during the idle phase is handled
/// exactly as one arriving while draining, and the run continues in the
/// draining phase either way.
pub proof fn lemma_message_during_idle_resumes_draining(ev: Event, rest: Seq<Event>)
    requires
        ev is Message,
    ensures
        spec_step(Phase::Idle, EventKind::MessageArrived) == (
            LoopState::Running(Phase::Draining),
            Action::HandleMessage,
        ),
        spec_run(LoopState::Running(Phase::Idle), seq![ev] + rest) == spec_run(
            LoopState::Running(Phase::Draining),
            seq![ev] + rest,
        ),
{
    assert((seq![ev] + rest)[0] == ev);
    assert((seq![ev] + rest).drop_first() =~= rest);
}

/// After a disconnect, a reconnection success within the attempt budget
/// keeps the loop alive and draining — able to receive whatever follows —
/// while an exhausted budget stops the run with a fatal outcome at once.
pub proof fn lemma_disconnect_decides_survival(phase: Phase, results: Vec<bool>, rest: Seq<Event>)
    ensures
        spec_reconnect_success(results@) ==> spec_run(
            LoopState::Running(phase),
            seq![Event::Disconnected(results)] + rest,
        ) == spec_run(LoopState::Running(Phase::Draining), rest),
        !spec_reconnect_success(results@) ==> spec_run(
            LoopState::Running(phase),
            seq![Event::Disconnected(results)] + rest,
        ) == (LoopState::Stopped(LoopOutcome::ReconnectExhausted), Seq::<
            (Seq<char>, Seq<u8>),
        >::empty()),
{
    assert((seq![Event::Disconnected(results)] + rest)[0] == Event::Disconnected(results));
    assert((seq![Event::Disconnected(results)] + rest).drop_first() =~= rest);
}

} // verus!
