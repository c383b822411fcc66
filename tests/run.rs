use pmppt::activity::PlotHint;
use pmppt::protocol::{Id, Request, Response};
use pmppt::run::{
    map_text, AgentFinaliser, AgentHint, FinalAction, FinalEvent, RunAction, RunEvent, RunState,
};

fn hint(agent: usize, activity: &str, id: u32) -> AgentHint {
    AgentHint { agent, activity: activity.to_string(), hint: PlotHint { id: Id(id), hint: None } }
}

#[test]
fn stage_barrier_and_reverse_stop() {
    let mut s = RunState::new(2, 2);
    assert_eq!(s.step(RunEvent::Begin), RunAction::StartStage(0));
    assert_eq!(s.step(RunEvent::StageStarted(Ok(()))), RunAction::StartStage(1));
    assert_eq!(s.step(RunEvent::StageStarted(Ok(()))), RunAction::StopStage(1));
    assert_eq!(s.step(RunEvent::StageStopped(Ok(vec![hint(1, "iostat", 2)]))), RunAction::StopStage(0));
    assert_eq!(
        s.step(RunEvent::StageStopped(Ok(vec![hint(0, "mpstat", 1), hint(1, "poller", 1)]))),
        RunAction::Finalise(0)
    );
    assert_eq!(s.hints_for(0), vec![("mpstat".to_string(), PlotHint { id: Id(1), hint: None })]);
    assert_eq!(
        s.hints_for(1),
        vec![
            ("iostat".to_string(), PlotHint { id: Id(2), hint: None }),
            ("poller".to_string(), PlotHint { id: Id(1), hint: None }),
        ]
    );
    assert_eq!(s.step(RunEvent::Finalised(Ok(()))), RunAction::Finalise(1));
    assert_eq!(s.step(RunEvent::Finalised(Ok(()))), RunAction::Finish(Ok(())));
}

#[test]
fn failed_start_unwinds_then_ends() {
    let mut s = RunState::new(3, 1);
    assert_eq!(s.step(RunEvent::Begin), RunAction::StartStage(0));
    assert_eq!(s.step(RunEvent::StageStarted(Ok(()))), RunAction::StartStage(1));
    assert_eq!(s.step(RunEvent::StageStarted(Err("empty glob".to_string()))), RunAction::StopStartedFrom(1));
    assert_eq!(s.step(RunEvent::Unwound), RunAction::EndAll);
    assert_eq!(s.step(RunEvent::Ended), RunAction::Finish(Err("empty glob".to_string())));
}

#[test]
fn failed_stop_ends_sessions() {
    let mut s = RunState::new(1, 1);
    s.step(RunEvent::Begin);
    assert_eq!(s.step(RunEvent::StageStarted(Ok(()))), RunAction::StopStage(0));
    assert_eq!(s.step(RunEvent::StageStopped(Err("lost".to_string()))), RunAction::EndAll);
    assert_eq!(s.step(RunEvent::Ended), RunAction::Finish(Err("lost".to_string())));
}

#[test]
fn unexpected_event_finishes_with_error() {
    let mut s = RunState::new(1, 1);
    assert!(matches!(s.step(RunEvent::Unwound), RunAction::Finish(Err(_))));
    let mut empty = RunState::new(0, 0);
    assert_eq!(empty.step(RunEvent::Begin), RunAction::Finish(Ok(())));
}

#[test]
fn agent_finalisation() {
    let hints = vec![("launch".to_string(), PlotHint { id: Id(1), hint: Some("h".to_string()) })];
    assert_eq!(map_text(&hints), "001 launch h\n");
    let mut f = AgentFinaliser::new(&hints);
    assert_eq!(f.step(FinalEvent::Begin), FinalAction::Send(Request::StopAll));
    assert_eq!(f.step(FinalEvent::Reply(Response::StopAll(Ok(())))), FinalAction::Send(Request::Collect));
    assert_eq!(
        f.step(FinalEvent::Reply(Response::Collect(Ok(vec![7])))),
        FinalAction::WriteFiles { archive: vec![7], map: "001 launch h\n".to_string() }
    );
    assert_eq!(f.step(FinalEvent::Written(Ok(()))), FinalAction::Send(Request::End));
    assert_eq!(f.step(FinalEvent::Sent(Ok(()))), FinalAction::Finished(Ok(())));
}

#[test]
fn finalisation_stops_on_agent_failure() {
    let mut f = AgentFinaliser::new(&vec![]);
    f.step(FinalEvent::Begin);
    assert_eq!(
        f.step(FinalEvent::Reply(Response::StopAll(Err("busy".to_string())))),
        FinalAction::Finished(Err("busy".to_string()))
    );
    let mut g = AgentFinaliser::new(&vec![]);
    g.step(FinalEvent::Begin);
    g.step(FinalEvent::Reply(Response::StopAll(Ok(()))));
    assert!(matches!(g.step(FinalEvent::Reply(Response::Stop(Ok(Id(1))))), FinalAction::Finished(Err(_))));
}
