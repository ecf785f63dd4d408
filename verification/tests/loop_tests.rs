use mqtt2file::message::IncomingMessage;
use mqtt2file::reconnect::{supervise, ReconnectOutcome, RECONNECT_ATTEMPT_BUDGET};
use mqtt2file::runtime::{
    after_reconnect, run_trace, step, wait_timeout_seconds, Action, Event, EventKind, LoopOutcome,
    LoopState, Phase,
};

fn message(filename: Option<&str>, payload: Vec<u8>) -> IncomingMessage {
    let metadata = match filename {
        Some(f) => vec![(String::from("filename"), String::from(f))],
        None => vec![],
    };
    IncomingMessage { topic: String::from("sensors/x"), payload, metadata }
}

#[test]
fn first_timeout_suspends_but_keeps_running() {
    let (state, action) = step(Phase::Draining, EventKind::TimedOut);
    assert_eq!(state, LoopState::Running(Phase::Idle));
    assert_eq!(action, Action::StopConsuming);
}

#[test]
fn second_timeout_stops_gracefully() {
    let (state, action) = step(Phase::Idle, EventKind::TimedOut);
    assert_eq!(state, LoopState::Stopped(LoopOutcome::Graceful));
    assert_eq!(action, Action::NoAction);
}

#[test]
fn message_during_idle_resumes_draining() {
    let (state, action) = step(Phase::Idle, EventKind::MessageArrived);
    assert_eq!(state, LoopState::Running(Phase::Draining));
    assert_eq!(action, Action::HandleMessage);
}

#[test]
fn message_during_draining_keeps_draining() {
    let (state, action) = step(Phase::Draining, EventKind::MessageArrived);
    assert_eq!(state, LoopState::Running(Phase::Draining));
    assert_eq!(action, Action::HandleMessage);
}

#[test]
fn disconnect_defers_to_reconnection() {
    let (state, action) = step(Phase::Draining, EventKind::DisconnectNotice);
    assert_eq!(state, LoopState::Running(Phase::Draining));
    assert_eq!(action, Action::AttemptReconnect);
}

#[test]
fn reconnect_verdict_folds_back_into_the_loop() {
    assert_eq!(
        after_reconnect(&ReconnectOutcome::Reconnected),
        LoopState::Running(Phase::Draining)
    );
    assert_eq!(
        after_reconnect(&ReconnectOutcome::Exhausted),
        LoopState::Stopped(LoopOutcome::ReconnectExhausted)
    );
}

#[test]
fn supervision_stops_at_first_success() {
    assert_eq!(supervise(&vec![false, false, true, false]), ReconnectOutcome::Reconnected);
    assert_eq!(supervise(&vec![true]), ReconnectOutcome::Reconnected);
}

#[test]
fn supervision_exhausts_the_budget() {
    assert_eq!(RECONNECT_ATTEMPT_BUDGET, 12);
    assert_eq!(supervise(&vec![false; 12]), ReconnectOutcome::Exhausted);
    assert_eq!(supervise(&vec![]), ReconnectOutcome::Exhausted);
}

#[test]
fn success_after_the_budget_does_not_count() {
    let mut results = vec![false; 12];
    results.push(true);
    assert_eq!(supervise(&results), ReconnectOutcome::Exhausted);
}

#[test]
fn wait_timeout_in_seconds() {
    assert_eq!(wait_timeout_seconds(5), 300);
    assert_eq!(wait_timeout_seconds(0), 0);
}

#[test]
fn one_message_then_silence() {
    // One message with a filename, then two consecutive quiet periods: the
    // payload is persisted under the target directory and the run ends
    // gracefully.
    let events = vec![
        Event::Message(message(Some("a.bin"), vec![0xde, 0xad, 0xbe, 0xef])),
        Event::Timeout,
        Event::Timeout,
    ];
    let r = run_trace(events, "/tmp/out");
    assert_eq!(r.state, LoopState::Stopped(LoopOutcome::Graceful));
    assert_eq!(r.plans.len(), 1);
    assert_eq!(r.plans[0].filename, "a.bin");
    assert_eq!(r.plans[0].path, "/tmp/out/a.bin");
    assert_eq!(r.plans[0].payload, vec![0xde, 0xad, 0xbe, 0xef]);
}

#[test]
fn one_timeout_alone_never_ends_the_run() {
    let r = run_trace(vec![Event::Timeout], "/d");
    assert_eq!(r.state, LoopState::Running(Phase::Idle));
    assert_eq!(r.plans.len(), 0);
}

#[test]
fn a_message_between_timeouts_resets_the_silence() {
    // Draining -> Idle -> message resets to Draining -> Idle -> Stopped:
    // four quiet periods in all, but never two consecutive ones until the end.
    let events = vec![
        Event::Timeout,
        Event::Message(message(Some("late.bin"), vec![7])),
        Event::Timeout,
        Event::Timeout,
    ];
    let r = run_trace(events, "/d");
    assert_eq!(r.state, LoopState::Stopped(LoopOutcome::Graceful));
    assert_eq!(r.plans.len(), 1);
    assert_eq!(r.plans[0].path, "/d/late.bin");
}

#[test]
fn a_message_without_filename_is_dropped() {
    let events = vec![
        Event::Message(message(None, vec![1, 2, 3])),
        Event::Timeout,
        Event::Timeout,
    ];
    let r = run_trace(events, "/d");
    assert_eq!(r.state, LoopState::Stopped(LoopOutcome::Graceful));
    assert_eq!(r.plans.len(), 0);
}

#[test]
fn reconnection_within_budget_keeps_the_loop_alive() {
    let events = vec![
        Event::Disconnected(vec![false, true]),
        Event::Message(message(Some("after.bin"), vec![42])),
        Event::Timeout,
        Event::Timeout,
    ];
    let r = run_trace(events, "/d");
    assert_eq!(r.state, LoopState::Stopped(LoopOutcome::Graceful));
    assert_eq!(r.plans.len(), 1);
    assert_eq!(r.plans[0].path, "/d/after.bin");
}

#[test]
fn reconnection_exhaustion_is_fatal() {
    let events = vec![
        Event::Disconnected(vec![false; 12]),
        Event::Message(message(Some("never.bin"), vec![1])),
    ];
    let r = run_trace(events, "/d");
    assert_eq!(r.state, LoopState::Stopped(LoopOutcome::ReconnectExhausted));
    assert_eq!(r.plans.len(), 0);
}
