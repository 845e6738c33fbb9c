use flamingo_agent::service::{
    after_stop_poll, command_for, control_reply, restart_delays_secs, should_stop, status_for,
    stopped_status, ControlRequest, NullReporter, RecvOutcome, ServiceCommand, ServiceContext,
    ServiceReport, ServiceStateKind, StopPoll, StopWaitStep,
};

#[test]
fn wait_times_out_then_hears_stop() {
    let (tx, rx) = std::sync::mpsc::channel();
    let ctx = ServiceContext::new(rx, NullReporter);
    ctx.report(ServiceReport::Running);
    assert_eq!(ctx.wait(10), None);
    tx.send(ServiceCommand::Stop).unwrap();
    assert_eq!(ctx.wait(10), Some(ServiceCommand::Stop));
    drop(tx);
    assert_eq!(ctx.wait(10), Some(ServiceCommand::Stop));
}

#[test]
fn outcomes_map_to_commands() {
    assert_eq!(command_for(RecvOutcome::Received(ServiceCommand::Stop)), Some(ServiceCommand::Stop));
    assert_eq!(command_for(RecvOutcome::TimedOut), None);
    assert_eq!(command_for(RecvOutcome::Disconnected), Some(ServiceCommand::Stop));
    assert!(should_stop(Some(ServiceCommand::Stop)));
    assert!(!should_stop(None));
}

#[test]
fn control_requests() {
    let r = control_reply(ControlRequest::Stop);
    assert!(r.send_stop && r.handled);
    let r = control_reply(ControlRequest::Shutdown);
    assert!(r.send_stop && r.handled);
    let r = control_reply(ControlRequest::Interrogate);
    assert!(!r.send_stop && r.handled);
    let r = control_reply(ControlRequest::Other);
    assert!(!r.send_stop && !r.handled);
}

#[test]
fn status_plans() {
    let p = status_for(ServiceReport::Running);
    assert_eq!(p.state, ServiceStateKind::Running);
    assert!(p.accepts_stop);
    let p = status_for(ServiceReport::Stopping);
    assert_eq!(p.state, ServiceStateKind::StopPending);
    assert_eq!(p.wait_hint_ms, 10_000);
    assert!(!p.accepts_stop);
    assert_eq!(stopped_status(true).service_exit_code, None);
    assert_eq!(stopped_status(false).service_exit_code, Some(1));
    assert_eq!(stopped_status(false).state, ServiceStateKind::Stopped);
    assert_eq!(restart_delays_secs(), vec![5, 30, 60]);
    assert_eq!(after_stop_poll(StopPoll::NotYet), StopWaitStep::Sleep);
    assert_eq!(after_stop_poll(StopPoll::Stopped), StopWaitStep::Done);
    assert_eq!(after_stop_poll(StopPoll::QueryFailed), StopWaitStep::Done);
}
