//! The logger child's launcher, as a state machine: each tick reaps the
//! previous child, and when an attempt is due and metrics are at hand,
//! re-protects the log and starts a new child; failed starts back off
//! exponentially up to the configured limit. The caller performs each
//! action it is given and reports what happened as the next event.

use vstd::prelude::*;
use crate::config::Config;
use crate::metrics::{Metrics, arg_text, two_pow};

verus! {

/// The wait before the first retry after a failed start.
pub const INITIAL_BACKOFF_MS: u64 = 1000;

/// What `try_wait` found out about the previous child.
#[derive(Debug, Clone, Copy, PartialEq, Eq, Structural)]
pub enum ChildStatus {
    /// It has exited; `success` is its exit status, `stderr_empty` whether
    /// it wrote nothing to its error stream.
    Exited { success: bool, stderr_empty: bool },
    /// It is still running.
    Running,
    /// Its state could not be read.
    Unknown,
}

/// What happened since the last action.
#[derive(Debug, Clone, Copy, PartialEq, Eq, Structural)]
pub enum TickEvent {
    /// A new tick at `now_ms` (a monotonic clock, in milliseconds), with or
    /// without this tick's metrics.
    Start { now_ms: u64, have_metrics: bool },
    /// The result of `CheckChild`, and the time after the check.
    ChildChecked { status: ChildStatus, now_ms: u64 },
    /// `KillChild` is done (kill and wait, whatever they returned), and when.
    ChildKilled { now_ms: u64 },
    /// The result of `SecureLog`.
    LogSecured { ok: bool },
    /// The result of `Spawn`, and when it came back.
    Spawned { ok: bool, now_ms: u64 },
}

/// What the caller has to do next.
#[derive(Debug, Clone, Copy, PartialEq, Eq, Structural)]
pub enum TickAction {
    /// Ask the previous child whether it has exited.
    CheckChild,
    /// Kill the previous child and wait for it.
    KillChild,
    /// Create the child log if missing and restrict it to administrators.
    SecureLog,
    /// Start the child with `child_args`.
    Spawn,
    /// Nothing more this tick.
    Finish,
}

/// What the caller should log.
#[derive(Debug, Clone, Copy, PartialEq, Eq, Structural)]
pub enum Note {
    /// The previous child failed (with its exit status and error output).
    ChildFailed,
    /// The previous child succeeded but wrote to its error stream.
    ChildSaid,
    /// The previous child was still running a whole interval later.
    ChildStuck,
    /// The previous child's state could not be read; it is forgotten.
    ChildLost,
    /// No metrics this tick, so no child.
    NoMetrics,
    /// The log is now locked down to administrators.
    LogLocked,
    /// Locking down the log failed; the child starts anyway.
    LogLockFailed,
    /// A child was started.
    ChildStarted,
    /// Starting the child failed for the `attempt`-th time in a row; the
    /// next attempt comes `retry_in_ms` later.
    StartFailed { attempt: u32, retry_in_ms: u64 },
}

/// Where the launcher is within a tick.
#[derive(Debug, Clone, Copy, PartialEq, Eq, Structural)]
pub enum Phase {
    Idle,
    Checking { have_metrics: bool },
    Killing { have_metrics: bool },
    Securing,
    Spawning,
}

/// The launcher's state as the contracts see it.
pub struct LauncherView {
    /// A child was started and not yet reaped.
    pub pending: bool,
    pub next_attempt_ms: u64,
    pub backoff_ms: u64,
    pub consecutive_failures: u32,
    /// Outcome of the last attempt to lock the log down, if any.
    pub protection_ok: Option<bool>,
    pub phase: Phase,
    pub max_backoff_ms: u64,
}

/// The run of failed starts and the wait it calls for; updated together.
struct Retry {
    consecutive_failures: u32,
    backoff_ms: u64,
}

pub struct ChildLauncher {
    config: Config,
    pending: bool,
    next_attempt_ms: u64,
    retry: Retry,
    protection_ok: Option<bool>,
    phase: Phase,
}

impl View for ChildLauncher {
    type V = LauncherView;

    closed spec fn view(&self) -> LauncherView {
        LauncherView {
            pending: self.pending,
            next_attempt_ms: self.next_attempt_ms,
            backoff_ms: self.retry.backoff_ms,
            consecutive_failures: self.retry.consecutive_failures,
            protection_ok: self.protection_ok,
            phase: self.phase,
            max_backoff_ms: self.config.max_backoff_ms,
        }
    }
}

pub open spec fn min_int(a: int, b: int) -> int {
    if a <= b { a } else { b }
}

/// The backoff after `n` failed starts in a row: the initial wait doubled
/// `n` times, but never more than `max` once a start has failed.
pub open spec fn backoff_after(n: nat, max: int) -> int {
    if n == 0 { INITIAL_BACKOFF_MS as int } else { min_int(INITIAL_BACKOFF_MS * two_pow(n), max) }
}

/// The backoff is the one the run of failures calls for.
pub open spec fn backoff_consistent(s: LauncherView) -> bool {
    s.backoff_ms == backoff_after(s.consecutive_failures as nat, s.max_backoff_ms as int)
}

/// The launcher's invariant: the backoff matches the run of failures, and
/// from killing the previous child until the next start no child is pending.
pub open spec fn launcher_inv(s: LauncherView) -> bool {
    &&& backoff_consistent(s)
    &&& (s.phase is Killing || s.phase is Securing || s.phase is Spawning) ==> !s.pending
}

/// The result of one step: the new state, the action, the notes in order.
pub struct StepResult {
    pub state: LauncherView,
    pub action: TickAction,
    pub notes: Seq<Note>,
}

/// The tick's due check, after the previous child is dealt with.
pub open spec fn due_step(s: LauncherView, now_ms: u64, have_metrics: bool, notes: Seq<Note>) -> StepResult {
    if now_ms < s.next_attempt_ms {
        StepResult { state: LauncherView { phase: Phase::Idle, ..s }, action: TickAction::Finish, notes }
    } else if !have_metrics {
        StepResult {
            state: LauncherView { phase: Phase::Idle, ..s },
            action: TickAction::Finish,
            notes: notes.push(Note::NoMetrics),
        }
    } else {
        StepResult { state: LauncherView { phase: Phase::Securing, ..s }, action: TickAction::SecureLog, notes }
    }
}

/// Whether `e` is the event the launcher waits for in state `s`, with the
/// counters inside their machine range.
pub open spec fn accepts(s: LauncherView, e: TickEvent) -> bool {
    match e {
        TickEvent::Start { .. } => s.phase is Idle,
        TickEvent::ChildChecked { .. } => s.phase is Checking,
        TickEvent::ChildKilled { .. } => s.phase is Killing,
        TickEvent::LogSecured { .. } => s.phase is Securing,
        TickEvent::Spawned { ok, now_ms } => {
            &&& s.phase is Spawning
            &&& !ok ==> s.consecutive_failures < u32::MAX && now_ms + s.backoff_ms <= u64::MAX
        },
    }
}

/// One step of the launcher.
pub open spec fn step(s: LauncherView, e: TickEvent) -> StepResult {
    match e {
        TickEvent::Start { now_ms, have_metrics } => {
            if s.pending {
                StepResult {
                    state: LauncherView { phase: Phase::Checking { have_metrics }, ..s },
                    action: TickAction::CheckChild,
                    notes: Seq::empty(),
                }
            } else {
                due_step(s, now_ms, have_metrics, Seq::empty())
            }
        },
        TickEvent::ChildChecked { status, now_ms } => {
            let have_metrics = s.phase->Checking_have_metrics;
            let reaped = LauncherView { pending: false, ..s };
            match status {
                ChildStatus::Exited { success, stderr_empty } => {
                    let notes = if !success {
                        seq![Note::ChildFailed]
                    } else if !stderr_empty {
                        seq![Note::ChildSaid]
                    } else {
                        Seq::empty()
                    };
                    due_step(reaped, now_ms, have_metrics, notes)
                },
                ChildStatus::Running => StepResult {
                    state: LauncherView { phase: Phase::Killing { have_metrics }, ..reaped },
                    action: TickAction::KillChild,
                    notes: seq![Note::ChildStuck],
                },
                ChildStatus::Unknown => due_step(reaped, now_ms, have_metrics, seq![Note::ChildLost]),
            }
        },
        TickEvent::ChildKilled { now_ms } => due_step(s, now_ms, s.phase->Killing_have_metrics, Seq::empty()),
        TickEvent::LogSecured { ok } => StepResult {
            state: LauncherView { protection_ok: Some(ok), phase: Phase::Spawning, ..s },
            action: TickAction::Spawn,
            notes: if s.protection_ok == Some(ok) {
                Seq::empty()
            } else if ok {
                seq![Note::LogLocked]
            } else {
                seq![Note::LogLockFailed]
            },
        },
        TickEvent::Spawned { ok, now_ms } => {
            if ok {
                StepResult {
                    state: LauncherView {
                        pending: true,
                        backoff_ms: INITIAL_BACKOFF_MS,
                        consecutive_failures: 0,
                        phase: Phase::Idle,
                        ..s
                    },
                    action: TickAction::Finish,
                    notes: seq![Note::ChildStarted],
                }
            } else {
                let attempt = (s.consecutive_failures + 1) as u32;
                StepResult {
                    state: LauncherView {
                        consecutive_failures: attempt,
                        next_attempt_ms: (now_ms + s.backoff_ms) as u64,
                        backoff_ms: min_int(2 * s.backoff_ms, s.max_backoff_ms as int) as u64,
                        phase: Phase::Idle,
                        ..s
                    },
                    action: TickAction::Finish,
                    notes: seq![Note::StartFailed { attempt, retry_in_ms: s.backoff_ms }],
                }
            }
        },
    }
}

/// An action and the notes to log, as `tick` hands them back.
pub struct TickOutput {
    pub action: TickAction,
    pub notes: Vec<Note>,
}

impl ChildLauncher {
    #[verifier::type_invariant]
    spec fn wf(self) -> bool {
        launcher_inv(self@)
    }

    /// A launcher for `config` whose first attempt is due at once (`now_ms`).
    pub fn new(config: Config, now_ms: u64) -> (l: ChildLauncher)
        ensures
            l@ == (LauncherView {
                pending: false,
                next_attempt_ms: now_ms,
                backoff_ms: INITIAL_BACKOFF_MS,
                consecutive_failures: 0,
                protection_ok: None,
                phase: Phase::Idle,
                max_backoff_ms: config.max_backoff_ms,
            }),
            l.config() == config,
            launcher_inv(l@),
    {
        ChildLauncher {
            config,
            pending: false,
            next_attempt_ms: now_ms,
            retry: Retry { consecutive_failures: 0, backoff_ms: INITIAL_BACKOFF_MS },
            protection_ok: None,
            phase: Phase::Idle,
        }
    }

    pub closed spec fn config(&self) -> Config {
        self.config
    }

    /// The configuration the launcher was made with.
    pub fn config_ref(&self) -> (c: &Config)
        ensures
            *c == self.config(),
            c.max_backoff_ms == self@.max_backoff_ms,
    {
        &self.config
    }

    /// Whether `event` is what the launcher waits for now.
    pub fn accepts(&self, event: TickEvent) -> (r: bool)
        ensures
            r == accepts(self@, event),
    {
        match event {
            TickEvent::Start { .. } => matches!(self.phase, Phase::Idle),
            TickEvent::ChildChecked { .. } => matches!(self.phase, Phase::Checking { .. }),
            TickEvent::ChildKilled { .. } => matches!(self.phase, Phase::Killing { .. }),
            TickEvent::LogSecured { .. } => matches!(self.phase, Phase::Securing),
            TickEvent::Spawned { ok, now_ms } => {
                matches!(self.phase, Phase::Spawning) && (ok || (self.retry.consecutive_failures
                    < u32::MAX && now_ms <= u64::MAX - self.retry.backoff_ms))
            },
        }
    }

    fn due(&mut self, now_ms: u64, have_metrics: bool, notes: Vec<Note>) -> (out: TickOutput)
        requires
            !old(self)@.pending,
        ensures
            ({
                let r = due_step(old(self)@, now_ms, have_metrics, notes@);
                &&& final(self)@ == r.state
                &&& out.action == r.action
                &&& out.notes@ == r.notes
            }),
            final(self).config() == old(self).config(),
    {
        proof {
            use_type_invariant(&*self);
        }
        let mut notes = notes;
        if now_ms < self.next_attempt_ms {
            self.phase = Phase::Idle;
            TickOutput { action: TickAction::Finish, notes }
        } else if !have_metrics {
            self.phase = Phase::Idle;
            notes.push(Note::NoMetrics);
            TickOutput { action: TickAction::Finish, notes }
        } else {
            self.phase = Phase::Securing;
            TickOutput { action: TickAction::SecureLog, notes }
        }
    }

    /// Advances the launcher by one event and says what to do next.
    pub fn tick(&mut self, event: TickEvent) -> (out: TickOutput)
        requires
            accepts(old(self)@, event),
        ensures
            launcher_inv(final(self)@),
            ({
                let r = step(old(self)@, event);
                &&& final(self)@ == r.state
                &&& out.action == r.action
                &&& out.notes@ == r.notes
            }),
            final(self).config() == old(self).config(),
    {
        proof {
            use_type_invariant(&*self);
        }
        match event {
            TickEvent::Start { now_ms, have_metrics } => {
                if self.pending {
                    self.phase = Phase::Checking { have_metrics };
                    TickOutput { action: TickAction::CheckChild, notes: Vec::new() }
                } else {
                    self.due(now_ms, have_metrics, Vec::new())
                }
            },
            TickEvent::ChildChecked { status, now_ms } => {
                let have_metrics = match self.phase {
                    Phase::Checking { have_metrics } => have_metrics,
                    _ => false,
                };
                self.pending = false;
                match status {
                    ChildStatus::Exited { success, stderr_empty } => {
                        let mut notes = Vec::new();
                        if !success {
                            notes.push(Note::ChildFailed);
                        } else if !stderr_empty {
                            notes.push(Note::ChildSaid);
                        }
                        proof {
                            assert(notes@ =~= (if !success {
                                seq![Note::ChildFailed]
                            } else if !stderr_empty {
                                seq![Note::ChildSaid]
                            } else {
                                Seq::empty()
                            }));
                        }
                        self.due(now_ms, have_metrics, notes)
                    },
                    ChildStatus::Running => {
                        self.phase = Phase::Killing { have_metrics };
                        let mut notes = Vec::new();
                        notes.push(Note::ChildStuck);
                        proof {
                            assert(notes@ =~= seq![Note::ChildStuck]);
                        }
                        TickOutput { action: TickAction::KillChild, notes }
                    },
                    ChildStatus::Unknown => {
                        let mut notes = Vec::new();
                        notes.push(Note::ChildLost);
                        proof {
                            assert(notes@ =~= seq![Note::ChildLost]);
                        }
                        self.due(now_ms, have_metrics, notes)
                    },
                }
            },
            TickEvent::ChildKilled { now_ms } => {
                let have_metrics = match self.phase {
                    Phase::Killing { have_metrics } => have_metrics,
                    _ => false,
                };
                self.due(now_ms, have_metrics, Vec::new())
            },
            TickEvent::LogSecured { ok } => {
                let mut notes = Vec::new();
                let changed = match self.protection_ok {
                    Some(prev) => prev != ok,
                    None => true,
                };
                if changed {
                    if ok {
                        notes.push(Note::LogLocked);
                    } else {
                        notes.push(Note::LogLockFailed);
                    }
                }
                self.protection_ok = Some(ok);
                self.phase = Phase::Spawning;
                proof {
                    assert(notes@ =~= (if old(self)@.protection_ok == Some(ok) {
                        Seq::empty()
                    } else if ok {
                        seq![Note::LogLocked]
                    } else {
                        seq![Note::LogLockFailed]
                    }));
                }
                TickOutput { action: TickAction::Spawn, notes }
            },
            TickEvent::Spawned { ok, now_ms } => {
                let mut notes = Vec::new();
                if ok {
                    self.phase = Phase::Idle;
                    self.retry = Retry { consecutive_failures: 0, backoff_ms: INITIAL_BACKOFF_MS };
                    self.pending = true;
                    notes.push(Note::ChildStarted);
                    proof {
                        assert(notes@ =~= seq![Note::ChildStarted]);
                    }
                } else {
                    let attempt = self.retry.consecutive_failures + 1;
                    let retry_in_ms = self.retry.backoff_ms;
                    let max = self.config.max_backoff_ms;
                    let next_backoff = if retry_in_ms > max / 2 { max } else if 2 * retry_in_ms < max {
                        2 * retry_in_ms
                    } else {
                        max
                    };
                    proof {
                        lemma_failure_keeps_backoff(old(self)@);
                    }
                    self.retry = Retry { consecutive_failures: attempt, backoff_ms: next_backoff };
                    self.next_attempt_ms = now_ms + retry_in_ms;
                    self.phase = Phase::Idle;
                    notes.push(Note::StartFailed { attempt, retry_in_ms });
                    proof {
                        assert(notes@ =~= seq![Note::StartFailed { attempt, retry_in_ms }]);
                    }
                }
                TickOutput { action: TickAction::Finish, notes }
            },
        }
    }

    /// Forgets the previous child; says whether there was one, which the
    /// caller then kills unless it has exited (see `must_kill`).
    pub fn shutdown(&mut self) -> (had_child: bool)
        ensures
            had_child == old(self)@.pending,
            final(self)@ == (LauncherView { pending: false, phase: Phase::Idle, ..old(self)@ }),
            launcher_inv(final(self)@),
            final(self).config() == old(self).config(),
    {
        proof {
            use_type_invariant(&*self);
        }
        let had_child = self.pending;
        self.pending = false;
        self.phase = Phase::Idle;
        had_child
    }

    /// The child's two arguments: the metrics and the log it appends to.
    pub fn child_args(&self, metrics: Metrics) -> (args: Vec<String>)
        requires
            metrics.in_range(),
        ensures
            args@.len() == 2,
            args@[0]@ == arg_text(metrics),
            args@[1]@ == self.config().child_log@,
    {
        let mut args = Vec::new();
        args.push(metrics.to_arg());
        args.push(self.config.child_log.clone());
        args
    }
}

/// At shutdown, a child that has not exited is killed.
pub fn must_kill(status: ChildStatus) -> (kill: bool)
    ensures
        kill == !(status is Exited),
{
    !matches!(status, ChildStatus::Exited { .. })
}

/// A failed start keeps the backoff in step with the run of failures.
proof fn lemma_failure_keeps_backoff(s: LauncherView)
    requires
        backoff_consistent(s),
        s.consecutive_failures < u32::MAX,
    ensures
        backoff_consistent(LauncherView {
            consecutive_failures: (s.consecutive_failures + 1) as u32,
            backoff_ms: min_int(2 * s.backoff_ms, s.max_backoff_ms as int) as u64,
            ..s
        }),
        min_int(2 * s.backoff_ms, s.max_backoff_ms as int) <= u64::MAX,
{
    let n = s.consecutive_failures as nat;
    let m = s.max_backoff_ms as int;
    assert(two_pow(n + 1) == 2 * two_pow(n));
    if n == 0 {
        assert(two_pow(1) == 2) by {
            reveal_with_fuel(two_pow, 2);
        }
    }
}

/// The time and metrics a step's due check uses, if it makes one: the time
/// after the previous child was dealt with, the tick's metrics.
pub open spec fn tick_context(s: LauncherView, e: TickEvent) -> (u64, bool) {
    match e {
        TickEvent::Start { now_ms, have_metrics } => (now_ms, have_metrics),
        TickEvent::ChildChecked { now_ms, .. } => (now_ms, s.phase->Checking_have_metrics),
        TickEvent::ChildKilled { now_ms } => (now_ms, s.phase->Killing_have_metrics),
        _ => (0, false),
    }
}

/// Law: every step keeps the launcher's invariant; in particular the
/// backoff stays at the initial second doubled once per failed start in a
/// row, capped at the configured maximum, and a successful start brings it
/// back to the initial second.
pub proof fn lemma_backoff_follows_failures(s: LauncherView, e: TickEvent)
    requires
        launcher_inv(s),
        accepts(s, e),
    ensures
        launcher_inv(step(s, e).state),
        step(s, e).state.max_backoff_ms == s.max_backoff_ms,
{
    if let TickEvent::Spawned { ok, now_ms } = e {
        if !ok {
            lemma_failure_keeps_backoff(s);
        }
    }
}

/// Law: a failed start counts one more failure in a row and schedules the
/// next attempt one current backoff later, which is the wait its note
/// reports.
pub proof fn lemma_failed_start_schedules_retry(s: LauncherView, now_ms: u64)
    requires
        launcher_inv(s),
        accepts(s, TickEvent::Spawned { ok: false, now_ms }),
    ensures
        ({
            let r = step(s, TickEvent::Spawned { ok: false, now_ms });
            &&& r.state.consecutive_failures == s.consecutive_failures + 1
            &&& r.state.next_attempt_ms == now_ms + backoff_after(s.consecutive_failures as nat, s.max_backoff_ms as int)
            &&& r.notes == seq![Note::StartFailed {
                attempt: r.state.consecutive_failures,
                retry_in_ms: (r.state.next_attempt_ms - now_ms) as u64,
            }]
            &&& r.action == TickAction::Finish
            &&& !r.state.pending
        }),
{
}

/// Law: a successful start leaves a child pending and clears the run of
/// failures and the backoff.
pub proof fn lemma_success_resets(s: LauncherView, now_ms: u64)
    requires
        accepts(s, TickEvent::Spawned { ok: true, now_ms }),
    ensures
        ({
            let r = step(s, TickEvent::Spawned { ok: true, now_ms });
            &&& r.state.pending
            &&& r.state.consecutive_failures == 0
            &&& r.state.backoff_ms == INITIAL_BACKOFF_MS
            &&& r.state.next_attempt_ms == s.next_attempt_ms
            &&& r.notes == seq![Note::ChildStarted]
        }),
{
}

/// Law: the lock-down outcome is logged only when it differs from the last
/// one, and is remembered either way.
pub proof fn lemma_lock_noted_on_change(s: LauncherView, ok: bool)
    requires
        accepts(s, TickEvent::LogSecured { ok }),
    ensures
        ({
            let r = step(s, TickEvent::LogSecured { ok });
            &&& r.state.protection_ok == Some(ok)
            &&& (r.notes.len() == 0 <==> s.protection_ok == Some(ok))
            &&& r.notes.len() > 0 ==> r.notes == seq![if ok { Note::LogLocked } else { Note::LogLockFailed }]
            &&& r.action == TickAction::Spawn
        }),
{
}

/// Law: a tick only goes on to protect the log and start a child when the
/// next attempt is due and the tick has metrics; and a start is asked for
/// only right after the log was secured, on every launch.
pub proof fn lemma_launch_only_when_due(s: LauncherView, e: TickEvent)
    requires
        launcher_inv(s),
        accepts(s, e),
    ensures
        step(s, e).action == TickAction::SecureLog ==> ({
            let (now_ms, have_metrics) = tick_context(s, e);
            &&& now_ms >= s.next_attempt_ms
            &&& have_metrics
            &&& !step(s, e).state.pending
        }),
        step(s, e).action == TickAction::Spawn <==> e is LogSecured,
{
}

/// Law: checking the previous child always forgets it; it is killed
/// exactly when it is still running.
pub proof fn lemma_reap_forgets_child(s: LauncherView, status: ChildStatus, now_ms: u64)
    requires
        accepts(s, TickEvent::ChildChecked { status, now_ms }),
    ensures
        !step(s, TickEvent::ChildChecked { status, now_ms }).state.pending,
        (step(s, TickEvent::ChildChecked { status, now_ms }).action == TickAction::KillChild) <==> (status
            == ChildStatus::Running),
{
}

/// Law: only a failed start moves the next attempt; every other step, a
/// tick without metrics included, leaves it where it was.
pub proof fn lemma_only_failed_start_reschedules(s: LauncherView, e: TickEvent)
    requires
        accepts(s, e),
        !(e matches TickEvent::Spawned { ok, .. } && !ok),
    ensures
        step(s, e).state.next_attempt_ms == s.next_attempt_ms,
{
}

/// Law (the converse of `lemma_launch_only_when_due`): once the previous
/// child is dealt with, a tick that is due and has metrics always goes on to
/// lock the log down (and then to start the child).
pub proof fn lemma_launch_whenever_due(s: LauncherView, e: TickEvent)
    requires
        launcher_inv(s),
        accepts(s, e),
        match e {
            TickEvent::Start { .. } => !s.pending,
            TickEvent::ChildChecked { status, .. } => status != ChildStatus::Running,
            TickEvent::ChildKilled { .. } => true,
            _ => false,
        },
        tick_context(s, e).0 >= s.next_attempt_ms,
        tick_context(s, e).1,
    ensures
        step(s, e).action == TickAction::SecureLog,
        step(step(s, e).state, TickEvent::LogSecured { ok: true }).action == TickAction::Spawn,
        step(step(s, e).state, TickEvent::LogSecured { ok: false }).action == TickAction::Spawn,
{
}

/// Law: a previous child that exited with failure is always reported first,
/// whatever it wrote; a successful one is reported exactly when it wrote to
/// its error stream; a failure is never reported for a success.
pub proof fn lemma_exit_reported(s: LauncherView, success: bool, stderr_empty: bool, now_ms: u64)
    requires
        accepts(s, TickEvent::ChildChecked { status: ChildStatus::Exited { success, stderr_empty }, now_ms }),
    ensures
        ({
            let notes = step(s, TickEvent::ChildChecked { status: ChildStatus::Exited { success, stderr_empty }, now_ms }).notes;
            &&& !success ==> notes.len() >= 1 && notes[0] == Note::ChildFailed
            &&& success ==> ((notes.len() >= 1 && notes[0] == Note::ChildSaid) <==> !stderr_empty)
            &&& success ==> !notes.contains(Note::ChildFailed)
        }),
{
    let notes = step(s, TickEvent::ChildChecked { status: ChildStatus::Exited { success, stderr_empty }, now_ms }).notes;
    if success {
        if notes.contains(Note::ChildFailed) {
            let k = choose|k: int| 0 <= k < notes.len() && notes[k] == Note::ChildFailed;
            assert(false);
        }
    }
}

/// Law: a tick that finds a child pending first checks on it, and changes
/// nothing else yet.
pub proof fn lemma_pending_child_checked_first(s: LauncherView, now_ms: u64, have_metrics: bool)
    requires
        accepts(s, TickEvent::Start { now_ms, have_metrics }),
        s.pending,
    ensures
        ({
            let r = step(s, TickEvent::Start { now_ms, have_metrics });
            &&& r.action == TickAction::CheckChild
            &&& r.notes.len() == 0
            &&& r.state.pending
            &&& r.state.next_attempt_ms == s.next_attempt_ms
            &&& r.state.backoff_ms == s.backoff_ms
            &&& r.state.consecutive_failures == s.consecutive_failures
            &&& r.state.protection_ok == s.protection_ok
        }),
{
}

} // verus!
