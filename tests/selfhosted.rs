use pmppt::protocol::{ForegroundOutput, Id, Request, Response, SpawnMode};
use pmppt::selfhosted::{LocalCommand, LocalStep, SelfHosted};

#[test]
fn commands_then_stop_all_then_end() {
    let mut d = SelfHosted::new(vec![
        LocalCommand::Poll { pattern: "/proc/stat".to_string() },
        LocalCommand::Sleep { millis: 10 },
        LocalCommand::Pause { prompt: Some("look".to_string()) },
    ]);
    assert_eq!(d.next_step(), LocalStep::Deliver(Request::Poll { pattern: "/proc/stat".to_string() }));
    d.on_response(&Response::Poll(Ok(Id(1))));
    assert_eq!(d.next_step(), LocalStep::Sleep(10));
    assert_eq!(d.next_step(), LocalStep::Pause(Some("look".to_string())));
    assert_eq!(d.next_step(), LocalStep::Deliver(Request::StopAll));
    assert_eq!(d.next_step(), LocalStep::Deliver(Request::End));
    assert_eq!(d.next_step(), LocalStep::Deliver(Request::End));
}

#[test]
fn failure_aborts_before_the_next_command() {
    let mut d = SelfHosted::new(vec![
        LocalCommand::Spawn { cmd: "nope".to_string(), args: vec![], mode: SpawnMode::BackgroundKill },
        LocalCommand::Stop { id: Id(1) },
    ]);
    assert!(matches!(d.next_step(), LocalStep::Deliver(Request::Spawn { .. })));
    d.on_response(&Response::SpawnBg(Err("cannot spawn".to_string())));
    assert_eq!(d.next_step(), LocalStep::Deliver(Request::Abort));
    assert_eq!(d.next_step(), LocalStep::Deliver(Request::Stop { id: Id(1) }));
}

#[test]
fn success_does_not_abort() {
    let mut d = SelfHosted::new(vec![LocalCommand::Abort]);
    d.on_response(&Response::SpawnFg(Ok(ForegroundOutput { id: Id(1), stdout: vec![], stderr: vec![] })));
    assert_eq!(d.next_step(), LocalStep::Deliver(Request::Abort));
    assert_eq!(d.next_step(), LocalStep::Deliver(Request::StopAll));
}
