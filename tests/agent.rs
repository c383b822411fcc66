use pmppt::agent::{
    spawn_reply, stop_reply, SpawnOutcome,
    data_dir_file, err_log_file, out_log_file, poll_log_file, process_kind, AgentState, Dispatch,
    ResourceKind, Session, StopAction, StopStep,
};
use pmppt::protocol::{ForegroundOutput, Id, Request, Response, SpawnMode};

fn bg(wait4: bool) -> ResourceKind {
    ResourceKind::Process { wait4 }
}

#[test]
fn ids_increase_by_one_from_one() {
    let mut a = AgentState::new();
    let ids: Vec<u32> = (0..5).map(|_| a.next_id().unwrap().value()).collect();
    assert_eq!(ids, vec![1, 2, 3, 4, 5]);
}

#[test]
fn register_only_the_last_id() {
    let mut a = AgentState::new();
    let one = a.next_id().unwrap();
    let two = a.next_id().unwrap();
    assert!(!a.register(one, ResourceKind::Poller));
    assert!(a.register(two, ResourceKind::Poller));
    assert!(!a.register(two, ResourceKind::Poller));
    assert_eq!(a.live_count(), 1);
}

#[test]
fn stop_ordering() {
    // poller, then a killed background process
    let mut a = AgentState::new();
    let p = a.next_id().unwrap();
    assert!(a.register(p, ResourceKind::Poller));
    let s = a.next_id().unwrap();
    assert!(a.register(s, bg(false)));
    let steps = a.stop_all(false);
    assert_eq!(
        steps,
        vec![
            StopStep { id: Id(2), action: StopAction::SignalThenWait },
            StopStep { id: Id(1), action: StopAction::JoinPoller },
        ]
    );
    assert!(a.can_collect());
}

#[test]
fn stop_one_and_unknown_id() {
    let mut a = AgentState::new();
    let id = a.next_id().unwrap();
    assert!(a.register(id, bg(true)));
    assert_eq!(a.stop_one(Id(7)), None);
    assert!(!a.can_collect());
    assert_eq!(a.stop_one(id), Some(StopStep { id, action: StopAction::Wait }));
    assert_eq!(a.stop_one(id), None);
    assert!(a.can_collect());
}

#[test]
fn abort_vs_end_abort() {
    let mut a = AgentState::new();
    let id = a.next_id().unwrap();
    assert!(a.register(id, bg(true)));
    assert_eq!(a.on_request(&Request::Abort), Dispatch::Finish { abnormal: true });
    assert_eq!(a.session_state(), Session::Aborting);
    let steps = a.finish().unwrap();
    assert_eq!(steps, vec![StopStep { id, action: StopAction::SignalThenWait }]);
    assert_eq!(a.session_state(), Session::Closed);
}

#[test]
fn abort_vs_end_end() {
    let mut a = AgentState::new();
    let id = a.next_id().unwrap();
    assert!(a.register(id, bg(true)));
    assert_eq!(a.on_request(&Request::End), Dispatch::Finish { abnormal: false });
    let steps = a.finish().unwrap();
    assert_eq!(steps, vec![StopStep { id, action: StopAction::Wait }]);
}

#[test]
fn session_transitions() {
    let mut a = AgentState::new();
    assert_eq!(a.session_state(), Session::Idle);
    assert_eq!(a.finish(), None);
    assert_eq!(a.on_request(&Request::StopAll), Dispatch::Handle);
    assert_eq!(a.session_state(), Session::Active);
    a.on_transport_lost();
    assert_eq!(a.session_state(), Session::Aborting);
    assert_eq!(a.on_request(&Request::Collect), Dispatch::Refuse);
    assert_eq!(a.finish(), Some(vec![]));
    assert_eq!(a.on_request(&Request::End), Dispatch::Refuse);
}

#[test]
fn foreground_leaves_no_resource() {
    assert_eq!(process_kind(SpawnMode::Foreground), None);
    assert_eq!(process_kind(SpawnMode::BackgroundWait), Some(bg(true)));
    assert_eq!(process_kind(SpawnMode::BackgroundKill), Some(bg(false)));
}

#[test]
fn resource_file_names() {
    assert_eq!(poll_log_file(Id(1)), "001-poll.log");
    assert_eq!(out_log_file(Id(42)), "042-out.log");
    assert_eq!(err_log_file(Id(999)), "999-err.log");
    assert_eq!(data_dir_file(Id(1234)), "1234-data");
}

#[test]
fn poll_stop_collect() {
    let mut a = AgentState::new();
    let plan = a.open_poller("/proc/stat").unwrap();
    assert_eq!(plan.id, Id(1));
    assert_eq!(plan.files, vec!["/proc/stat".to_string()]);
    assert_eq!(plan.log_file, "001-poll.log");
    assert!(plan.header.starts_with("{\"files\":[\"/proc/stat\"],"));
    assert!(!a.can_collect());
    assert_eq!(a.stop_all(false), vec![StopStep { id: Id(1), action: StopAction::JoinPoller }]);
    assert!(a.can_collect());
}

#[test]
fn failed_poll_uses_no_id() {
    let mut a = AgentState::new();
    assert!(a.open_poller("/proc/{stat,no_such_entry_here}").is_err());
    assert!(a.open_poller("/proc/{stat").is_err());
    assert_eq!(a.next_id(), Some(Id(1)));
}

#[test]
fn spawn_plans() {
    let mut a = AgentState::new();
    let fg = a.plan_spawn(SpawnMode::Foreground).unwrap();
    assert_eq!(fg.id, Id(1));
    assert_eq!(fg.kind, None);
    assert_eq!((fg.out_log.as_str(), fg.err_log.as_str(), fg.data_dir.as_str()), ("001-out.log", "001-err.log", "001-data"));
    let bg = a.plan_spawn(SpawnMode::BackgroundWait).unwrap();
    assert_eq!(bg.id, Id(2));
    assert_eq!(bg.kind, Some(bg_kind(true)));
    assert!(a.register(bg.id, bg.kind.unwrap()));
    assert_eq!(a.live_count(), 1);
}

fn bg_kind(wait4: bool) -> ResourceKind {
    ResourceKind::Process { wait4 }
}

#[test]
fn register_poller_promises_registration() {
    let mut a = AgentState::new();
    assert!(a.register_poller(vec![]).is_err());
    let plan = a.register_poller(vec!["/proc/stat".to_string()]).unwrap();
    assert_eq!(plan.id, Id(1));
    assert_eq!(plan.log_file, "001-poll.log");
    assert_eq!(plan.header, "{\"files\":[\"/proc/stat\"],\"period\":250000000}\n");
    assert_eq!(a.stop_all(false), vec![StopStep { id: Id(1), action: StopAction::JoinPoller }]);
}

#[test]
fn replies_carry_the_right_tag() {
    let out = ForegroundOutput { id: Id(1), stdout: b"hello\n".to_vec(), stderr: vec![] };
    assert_eq!(
        spawn_reply(SpawnMode::Foreground, Ok(SpawnOutcome::Ran(out.clone()))),
        Response::SpawnFg(Ok(out))
    );
    assert_eq!(spawn_reply(SpawnMode::BackgroundKill, Ok(SpawnOutcome::Started(Id(2)))), Response::SpawnBg(Ok(Id(2))));
    assert!(matches!(spawn_reply(SpawnMode::Foreground, Ok(SpawnOutcome::Started(Id(2)))), Response::SpawnFg(Err(_))));
    assert_eq!(spawn_reply(SpawnMode::BackgroundWait, Err("x".to_string())), Response::SpawnBg(Err("x".to_string())));
    assert_eq!(stop_reply(Id(3), true), Response::Stop(Ok(Id(3))));
    assert_eq!(stop_reply(Id(7), false), Response::Stop(Err("activity 7 not found".to_string())));
}
