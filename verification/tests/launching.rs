use flamingo_agent::config::Config;
use flamingo_agent::launcher::{
    must_kill, ChildLauncher, ChildStatus, Note, TickAction, TickEvent, INITIAL_BACKOFF_MS,
};
use flamingo_agent::metrics::Metrics;

fn launcher(now: u64) -> ChildLauncher {
    ChildLauncher::new(Config::with_defaults(Some("/pd"), "/opt/agent/a"), now)
}

fn step(l: &mut ChildLauncher, e: TickEvent) -> (TickAction, Vec<Note>) {
    assert!(l.accepts(e));
    let out = l.tick(e);
    (out.action, out.notes)
}

/// A tick with no previous child: due check, lock-down, start.
fn full_launch(l: &mut ChildLauncher, now: u64, lock_ok: bool, spawn_ok: bool) -> Vec<Note> {
    let mut notes = Vec::new();
    let (a, n) = step(l, TickEvent::Start { now_ms: now, have_metrics: true });
    notes.extend(n);
    if a == TickAction::CheckChild {
        let (a2, n2) = step(l, TickEvent::ChildChecked { status: ChildStatus::Exited { success: true, stderr_empty: true }, now_ms: now });
        notes.extend(n2);
        if a2 != TickAction::SecureLog {
            return notes;
        }
    } else if a != TickAction::SecureLog {
        return notes;
    }
    let (a, n) = step(l, TickEvent::LogSecured { ok: lock_ok });
    assert_eq!(a, TickAction::Spawn);
    notes.extend(n);
    let (a, n) = step(l, TickEvent::Spawned { ok: spawn_ok, now_ms: now });
    assert_eq!(a, TickAction::Finish);
    notes.extend(n);
    notes
}

#[test]
fn first_tick_launches_at_once() {
    let mut l = launcher(100);
    let notes = full_launch(&mut l, 100, true, true);
    assert_eq!(notes, vec![Note::LogLocked, Note::ChildStarted]);
}

#[test]
fn no_metrics_no_child() {
    let mut l = launcher(0);
    let (a, n) = step(&mut l, TickEvent::Start { now_ms: 0, have_metrics: false });
    assert_eq!(a, TickAction::Finish);
    assert_eq!(n, vec![Note::NoMetrics]);
}

#[test]
fn lock_state_is_logged_on_change_only() {
    let mut l = launcher(0);
    assert_eq!(full_launch(&mut l, 0, true, true), vec![Note::LogLocked, Note::ChildStarted]);
    assert_eq!(full_launch(&mut l, 5000, true, true), vec![Note::ChildStarted]);
    assert_eq!(full_launch(&mut l, 10000, false, true), vec![Note::LogLockFailed, Note::ChildStarted]);
    assert_eq!(full_launch(&mut l, 15000, false, true), vec![Note::ChildStarted]);
    assert_eq!(full_launch(&mut l, 20000, true, true), vec![Note::LogLocked, Note::ChildStarted]);
}

#[test]
fn failed_starts_back_off_and_cap() {
    let mut l = launcher(0);
    let mut now = 0u64;
    let mut expected_retry = INITIAL_BACKOFF_MS;
    for attempt in 1..=10u32 {
        let notes = full_launch(&mut l, now, true, false);
        let last = *notes.last().unwrap();
        assert_eq!(last, Note::StartFailed { attempt, retry_in_ms: expected_retry });
        // Not due before the retry time.
        let (a, n) = step(&mut l, TickEvent::Start { now_ms: now + expected_retry - 1, have_metrics: true });
        assert_eq!(a, TickAction::Finish);
        assert!(n.is_empty());
        now += expected_retry;
        expected_retry = (expected_retry * 2).min(60_000);
    }
    // A success resets the run.
    let notes = full_launch(&mut l, now, true, true);
    assert_eq!(notes, vec![Note::ChildStarted]);
    let (a, _) = step(&mut l, TickEvent::Start { now_ms: now + 5000, have_metrics: true });
    assert_eq!(a, TickAction::CheckChild);
    let (a, _) = step(&mut l, TickEvent::ChildChecked { status: ChildStatus::Exited { success: true, stderr_empty: true }, now_ms: now + 5000 });
    assert_eq!(a, TickAction::SecureLog);
    step(&mut l, TickEvent::LogSecured { ok: true });
    let (_, n) = step(&mut l, TickEvent::Spawned { ok: false, now_ms: now + 5000 });
    assert_eq!(n, vec![Note::StartFailed { attempt: 1, retry_in_ms: INITIAL_BACKOFF_MS }]);
}

#[test]
fn previous_child_is_reaped() {
    let mut l = launcher(0);
    full_launch(&mut l, 0, true, true);
    let (a, _) = step(&mut l, TickEvent::Start { now_ms: 5000, have_metrics: true });
    assert_eq!(a, TickAction::CheckChild);
    let (a, n) = step(&mut l, TickEvent::ChildChecked { status: ChildStatus::Exited { success: false, stderr_empty: false }, now_ms: 5000 });
    assert_eq!(a, TickAction::SecureLog);
    assert_eq!(n, vec![Note::ChildFailed]);
    step(&mut l, TickEvent::LogSecured { ok: true });
    step(&mut l, TickEvent::Spawned { ok: true, now_ms: 5000 });

    step(&mut l, TickEvent::Start { now_ms: 10000, have_metrics: false });
    let (a, n) = step(&mut l, TickEvent::ChildChecked { status: ChildStatus::Exited { success: true, stderr_empty: false }, now_ms: 10000 });
    assert_eq!(a, TickAction::Finish);
    assert_eq!(n, vec![Note::ChildSaid, Note::NoMetrics]);
}

#[test]
fn stuck_child_is_killed() {
    let mut l = launcher(0);
    full_launch(&mut l, 0, true, true);
    step(&mut l, TickEvent::Start { now_ms: 5000, have_metrics: true });
    let (a, n) = step(&mut l, TickEvent::ChildChecked { status: ChildStatus::Running, now_ms: 5000 });
    assert_eq!(a, TickAction::KillChild);
    assert_eq!(n, vec![Note::ChildStuck]);
    let (a, n) = step(&mut l, TickEvent::ChildKilled { now_ms: 5000 });
    assert_eq!(a, TickAction::SecureLog);
    assert!(n.is_empty());
}

#[test]
fn unknown_child_is_forgotten() {
    let mut l = launcher(0);
    full_launch(&mut l, 0, true, true);
    step(&mut l, TickEvent::Start { now_ms: 5000, have_metrics: true });
    let (a, n) = step(&mut l, TickEvent::ChildChecked { status: ChildStatus::Unknown, now_ms: 5000 });
    assert_eq!(a, TickAction::SecureLog);
    assert_eq!(n, vec![Note::ChildLost]);
}

#[test]
fn out_of_order_events_are_not_accepted() {
    let l = launcher(0);
    assert!(!l.accepts(TickEvent::ChildKilled { now_ms: 0 }));
    assert!(!l.accepts(TickEvent::LogSecured { ok: true }));
    assert!(l.accepts(TickEvent::Start { now_ms: 0, have_metrics: true }));
}

#[test]
fn shutdown_forgets_child() {
    let mut l = launcher(0);
    assert!(!l.shutdown());
    full_launch(&mut l, 0, true, true);
    assert!(l.shutdown());
    assert!(!l.shutdown());
    assert!(must_kill(ChildStatus::Running));
    assert!(must_kill(ChildStatus::Unknown));
    assert!(!must_kill(ChildStatus::Exited { success: false, stderr_empty: true }));
}

#[test]
fn child_args_are_metrics_and_log() {
    let l = launcher(0);
    let m = Metrics { utc_ms: 0, rss_bytes: 42 };
    let a = l.child_args(m);
    assert_eq!(a[0], "utc=1970-01-01T00:00:00.000Z;rss_bytes=42");
    assert_eq!(a[1], l.config_ref().child_log);
}
