use siri_billing_app::lifecycle::{
    Lifecycle, LifecycleAction, LifecycleEvent, Phase, ReplyOutcome, GRACE_PERIOD_SECS,
    SHUTDOWN_TIMEOUT_SECS, SHUTDOWN_URL,
};

fn spawned(pid: u32) -> Lifecycle<()> {
    let mut l = Lifecycle::new();
    l.store(pid, ());
    l
}

#[test]
fn close_waits_then_kills_even_after_successful_shutdown_request() {
    let mut l = spawned(4242);
    assert_eq!(
        l.step(LifecycleEvent::CloseRequested),
        LifecycleAction::PostShutdown { timeout_secs: 5 }
    );
    assert_eq!(l.peek_id(), Some(4242));
    assert_eq!(
        l.step(LifecycleEvent::ShutdownReplied { outcome: ReplyOutcome::Succeeded }),
        LifecycleAction::Wait { secs: 5 }
    );
    assert_eq!(l.peek_id(), Some(4242));
    assert_eq!(
        l.step(LifecycleEvent::GraceElapsed),
        LifecycleAction::Terminate { pid: 4242 }
    );
    assert_eq!(l.peek_id(), None);
    assert_eq!(l.phase(), Phase::Idle);
}

#[test]
fn shutdown_endpoint_and_timings() {
    assert_eq!(SHUTDOWN_URL, "http://localhost:8080/api/shutdown");
    assert_eq!(SHUTDOWN_TIMEOUT_SECS, 5);
    assert_eq!(GRACE_PERIOD_SECS, 5);
}

#[test]
fn graceful_shutdown_clears_handle_for_every_reply() {
    for outcome in [ReplyOutcome::Succeeded, ReplyOutcome::TimedOut, ReplyOutcome::Failed] {
        let mut l = spawned(7);
        l.step(LifecycleEvent::CloseRequested);
        l.step(LifecycleEvent::ShutdownReplied { outcome });
        assert_eq!(l.step(LifecycleEvent::GraceElapsed), LifecycleAction::Terminate { pid: 7 });
        assert_eq!(l.peek_id(), None);
    }
}

#[test]
fn close_without_backend_still_waits_and_kills_nothing() {
    let mut l: Lifecycle<()> = Lifecycle::new();
    assert_eq!(l.step(LifecycleEvent::CloseRequested), LifecycleAction::Wait { secs: 5 });
    assert_eq!(l.step(LifecycleEvent::GraceElapsed), LifecycleAction::Nothing);
    assert_eq!(l.peek_id(), None);
}

#[test]
fn final_cleanup_on_absent_handle_is_noop() {
    let mut l: Lifecycle<()> = Lifecycle::new();
    assert_eq!(l.final_cleanup(), LifecycleAction::Nothing);
    assert_eq!(l.peek_id(), None);
    assert_eq!(l.phase(), Phase::Idle);
}

#[test]
fn final_cleanup_terminates_stored_backend_once() {
    let mut l = spawned(99);
    assert_eq!(l.final_cleanup(), LifecycleAction::Terminate { pid: 99 });
    assert_eq!(l.final_cleanup(), LifecycleAction::Nothing);
}

#[test]
fn all_orders_of_close_exit_and_stream_end_terminate_at_most_once() {
    let events = [
        LifecycleEvent::CloseRequested,
        LifecycleEvent::ShutdownReplied { outcome: ReplyOutcome::Failed },
        LifecycleEvent::GraceElapsed,
        LifecycleEvent::AppExit,
        LifecycleEvent::OutputEnded,
    ];
    // every sequence of length up to four over the five events
    let mut sequences: Vec<Vec<LifecycleEvent>> = Vec::new();
    for len in 0..=4u32 {
        for code in 0..5usize.pow(len) {
            let mut c = code;
            let mut t = Vec::new();
            for _ in 0..len {
                t.push(events[c % 5]);
                c /= 5;
            }
            sequences.push(t);
        }
    }
    for s in &sequences {
        let mut l = spawned(1234);
        let kills = s
            .iter()
            .map(|e| l.step(*e))
            .filter(|a| matches!(a, LifecycleAction::Terminate { .. }))
            .count();
        assert!(kills <= 1, "{:?}", s);
    }
}

#[test]
fn stream_end_first_leaves_nothing_to_kill() {
    let mut l = spawned(5);
    assert_eq!(l.step(LifecycleEvent::OutputEnded), LifecycleAction::Nothing);
    assert_eq!(l.step(LifecycleEvent::CloseRequested), LifecycleAction::Wait { secs: 5 });
    assert_eq!(l.step(LifecycleEvent::GraceElapsed), LifecycleAction::Nothing);
    assert_eq!(l.step(LifecycleEvent::AppExit), LifecycleAction::Nothing);
}

#[test]
fn exit_during_grace_period_kills_and_grace_end_does_not() {
    let mut l = spawned(8);
    l.step(LifecycleEvent::CloseRequested);
    l.step(LifecycleEvent::ShutdownReplied { outcome: ReplyOutcome::TimedOut });
    assert_eq!(l.step(LifecycleEvent::AppExit), LifecycleAction::Terminate { pid: 8 });
    assert_eq!(l.step(LifecycleEvent::GraceElapsed), LifecycleAction::Nothing);
}

#[test]
fn repeated_close_during_shutdown_is_ignored() {
    let mut l = spawned(3);
    l.step(LifecycleEvent::CloseRequested);
    assert_eq!(l.step(LifecycleEvent::CloseRequested), LifecycleAction::Nothing);
    assert_eq!(l.phase(), Phase::AwaitingReply);
}

#[test]
fn take_returns_backend_once() {
    let mut l = spawned(11);
    let c = l.take().expect("stored");
    assert_eq!(c.pid, 11);
    assert!(l.take().is_none());
}
