//! Talking to whoever hosts the agent: stop commands in, status reports out,
//! and the decisions the Windows service manager's callbacks make.

use vstd::prelude::*;
use std::sync::mpsc::Receiver;
use crate::config::Config;
use crate::error::Error;

verus! {

#[derive(Debug, Clone, Copy, PartialEq, Eq, Structural)]
pub enum ServiceCommand {
    Stop,
}

#[derive(Debug, Clone, Copy, PartialEq, Eq, Structural)]
pub enum ServiceReport {
    Running,
    Stopping,
}

/// Whoever wants to hear about the agent's state (the service manager, or
/// nobody in the foreground).
pub trait ServiceReporter {
    fn report(&self, report: ServiceReport);
}

pub struct NullReporter;

impl ServiceReporter for NullReporter {
    fn report(&self, _report: ServiceReport) {
    }
}

#[verifier::external_type_specification]
#[verifier::external_body]
#[verifier::reject_recursive_types(T)]
pub struct ExReceiver<T>(Receiver<T>);

/// How waiting on the command channel ended.
#[derive(Debug, Clone, Copy, PartialEq, Eq, Structural)]
pub enum RecvOutcome {
    Received(ServiceCommand),
    TimedOut,
    /// Every sender is gone.
    Disconnected,
}

/// `Receiver::recv_timeout` with a timeout of `timeout_ms` milliseconds.
/// Which outcome comes back depends on other threads and on time, and is
/// not stated.
#[verifier::external_body]
fn recv_for(commands: &Receiver<ServiceCommand>, timeout_ms: u64) -> (o: RecvOutcome) {
    match commands.recv_timeout(std::time::Duration::from_millis(timeout_ms)) {
        Ok(command) => RecvOutcome::Received(command),
        Err(std::sync::mpsc::RecvTimeoutError::Timeout) => RecvOutcome::TimedOut,
        Err(std::sync::mpsc::RecvTimeoutError::Disconnected) => RecvOutcome::Disconnected,
    }
}

/// The command a wait yields: what was received; nothing on a timeout; and
/// a stop once nobody can send any more.
pub open spec fn command_after(o: RecvOutcome) -> Option<ServiceCommand> {
    match o {
        RecvOutcome::Received(c) => Some(c),
        RecvOutcome::TimedOut => None,
        RecvOutcome::Disconnected => Some(ServiceCommand::Stop),
    }
}

pub fn command_for(o: RecvOutcome) -> (c: Option<ServiceCommand>)
    ensures
        c == command_after(o),
{
    match o {
        RecvOutcome::Received(c) => Some(c),
        RecvOutcome::TimedOut => None,
        RecvOutcome::Disconnected => Some(ServiceCommand::Stop),
    }
}

/// Whether the agent's loop ends after a wait that yielded `c`.
pub fn should_stop(c: Option<ServiceCommand>) -> (stop: bool)
    ensures
        stop == (c == Some(ServiceCommand::Stop)),
{
    match c {
        Some(x) => match x {
            ServiceCommand::Stop => {
                assert(c == Some(ServiceCommand::Stop));
                true
            },
        },
        None => false,
    }
}

/// Something that runs the agent with a configuration: in the foreground,
/// or under a service manager.
pub trait ServiceHost {
    fn run(&self, config: Config) -> Result<(), Error>;
}

pub struct ServiceContext<R> {
    commands: Receiver<ServiceCommand>,
    reporter: R,
}

impl<R: ServiceReporter> ServiceContext<R> {
    pub closed spec fn reporter(&self) -> R {
        self.reporter
    }

    pub closed spec fn commands(&self) -> Receiver<ServiceCommand> {
        self.commands
    }

    pub fn new(commands: Receiver<ServiceCommand>, reporter: R) -> (ctx: Self)
        ensures
            ctx.reporter() == reporter,
            ctx.commands() == commands,
    {
        ServiceContext { commands, reporter }
    }

    /// Passes `report` to the reporter.
    pub fn report(&self, report: ServiceReport) {
        self.reporter.report(report);
    }

    /// Waits up to `timeout_ms` for a command; a closed channel reads as a
    /// stop. Which outcome the wait has is the channel's and the clock's.
    pub fn wait(&self, timeout_ms: u64) -> (c: Option<ServiceCommand>)
        ensures
            exists|o: RecvOutcome| c == command_after(o),
    {
        let o = recv_for(&self.commands, timeout_ms);
        command_for(o)
    }
}

// ---- the service manager's side ----

/// A control request from the service manager.
#[derive(Debug, Clone, Copy, PartialEq, Eq, Structural)]
pub enum ControlRequest {
    Stop,
    Shutdown,
    Interrogate,
    Other,
}

/// How the control handler answers.
#[derive(Debug, Clone, Copy, PartialEq, Eq, Structural)]
pub struct ControlReply {
    /// Send `ServiceCommand::Stop` to the agent's loop.
    pub send_stop: bool,
    /// Answer "no error" rather than "not implemented".
    pub handled: bool,
}

/// Stop and shutdown stop the agent; interrogation is acknowledged; nothing
/// else is implemented.
pub fn control_reply(c: ControlRequest) -> (r: ControlReply)
    ensures
        r.send_stop == (c == ControlRequest::Stop || c == ControlRequest::Shutdown),
        r.handled == (c != ControlRequest::Other),
{
    match c {
        ControlRequest::Stop | ControlRequest::Shutdown => ControlReply { send_stop: true, handled: true },
        ControlRequest::Interrogate => ControlReply { send_stop: false, handled: true },
        ControlRequest::Other => ControlReply { send_stop: false, handled: false },
    }
}

#[derive(Debug, Clone, Copy, PartialEq, Eq, Structural)]
pub enum ServiceStateKind {
    Running,
    StopPending,
    Stopped,
}

/// The status the service manager is told.
#[derive(Debug, Clone, Copy, PartialEq, Eq, Structural)]
pub struct StatusPlan {
    pub state: ServiceStateKind,
    /// Stop and shutdown requests are accepted.
    pub accepts_stop: bool,
    pub wait_hint_ms: u64,
    /// `Some(n)`: a service-specific exit code `n`; `None`: Win32 code 0.
    pub service_exit_code: Option<u32>,
}

/// Running accepts stop and shutdown; stopping accepts nothing and asks for
/// ten seconds.
pub fn status_for(report: ServiceReport) -> (p: StatusPlan)
    ensures
        report == ServiceReport::Running ==> p == (StatusPlan {
            state: ServiceStateKind::Running,
            accepts_stop: true,
            wait_hint_ms: 0,
            service_exit_code: None,
        }),
        report == ServiceReport::Stopping ==> p == (StatusPlan {
            state: ServiceStateKind::StopPending,
            accepts_stop: false,
            wait_hint_ms: 10_000,
            service_exit_code: None,
        }),
{
    match report {
        ServiceReport::Running => StatusPlan {
            state: ServiceStateKind::Running,
            accepts_stop: true,
            wait_hint_ms: 0,
            service_exit_code: None,
        },
        ServiceReport::Stopping => StatusPlan {
            state: ServiceStateKind::StopPending,
            accepts_stop: false,
            wait_hint_ms: 10_000,
            service_exit_code: None,
        },
    }
}

/// The final status, reported even when the loop failed: then with the
/// service-specific exit code 1.
pub fn stopped_status(loop_ok: bool) -> (p: StatusPlan)
    ensures
        p == (StatusPlan {
            state: ServiceStateKind::Stopped,
            accepts_stop: false,
            wait_hint_ms: 0,
            service_exit_code: if loop_ok { None } else { Some(1u32) },
        }),
{
    StatusPlan {
        state: ServiceStateKind::Stopped,
        accepts_stop: false,
        wait_hint_ms: 0,
        service_exit_code: if loop_ok { None } else { Some(1) },
    }
}

/// How long after each of the first three failures the service manager
/// restarts the agent, in seconds.
pub fn restart_delays_secs() -> (d: Vec<u64>)
    ensures
        d@ == seq![5u64, 30u64, 60u64],
{
    let mut d = Vec::new();
    d.push(5);
    d.push(30);
    d.push(60);
    proof {
        assert(d@ =~= seq![5u64, 30u64, 60u64]);
    }
    d
}

/// After a day without failures the restart count starts over.
pub const RESTART_RESET_SECS: u64 = 86_400;

/// How many times uninstalling polls for the service to stop.
pub const STOP_POLLS: u32 = 30;
pub const STOP_POLL_INTERVAL_MS: u64 = 500;

/// What one status query during uninstall found.
#[derive(Debug, Clone, Copy, PartialEq, Eq, Structural)]
pub enum StopPoll {
    Stopped,
    NotYet,
    QueryFailed,
}

#[derive(Debug, Clone, Copy, PartialEq, Eq, Structural)]
pub enum StopWaitStep {
    /// Stop waiting and go on removing the service.
    Done,
    /// Sleep `STOP_POLL_INTERVAL_MS`, then poll again if polls remain.
    Sleep,
}

/// Waiting for the service to stop: a stopped service or a failed query
/// ends the wait; otherwise sleep and poll again, at most `STOP_POLLS` times.
pub fn after_stop_poll(poll: StopPoll) -> (s: StopWaitStep)
    ensures
        s == (if poll == StopPoll::NotYet { StopWaitStep::Sleep } else { StopWaitStep::Done }),
{
    match poll {
        StopPoll::NotYet => StopWaitStep::Sleep,
        _ => StopWaitStep::Done,
    }
}

} // verus!
