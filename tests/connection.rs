use pmppt::connection::{collect_done, reply_kind, response_kind, stop_all_done, Exchange, ReplyKind};
use pmppt::protocol::{Id, Request, Response, SpawnMode};

#[test]
fn one_request_in_flight() {
    let mut x = Exchange::new();
    x.begin(&Request::StopAll).unwrap();
    assert!(x.begin(&Request::Collect).is_err());
    assert!(x.complete(&Response::Collect(Ok(vec![]))).is_err());
    x.complete(&Response::StopAll(Ok(()))).unwrap();
    assert!(x.complete(&Response::StopAll(Ok(()))).is_err());
    x.begin(&Request::Collect).unwrap();
    x.complete(&Response::Collect(Ok(vec![1]))).unwrap();
}

#[test]
fn terminal_requests_close() {
    let mut x = Exchange::new();
    x.begin(&Request::End).unwrap();
    assert!(x.begin(&Request::StopAll).is_err());
    let mut y = Exchange::new();
    y.begin(&Request::Abort).unwrap();
    assert!(y.begin(&Request::Abort).is_err());
}

#[test]
fn reply_kinds() {
    let fg = Request::Spawn { cmd: "echo".to_string(), args: vec![], mode: SpawnMode::Foreground };
    let bg = Request::Spawn { cmd: "sleep".to_string(), args: vec![], mode: SpawnMode::BackgroundKill };
    assert_eq!(reply_kind(&fg), Some(ReplyKind::SpawnFg));
    assert_eq!(reply_kind(&bg), Some(ReplyKind::SpawnBg));
    assert_eq!(reply_kind(&Request::Stop { id: Id(3) }), Some(ReplyKind::Stop));
    assert_eq!(reply_kind(&Request::End), None);
    assert_eq!(response_kind(&Response::Stop(Err("x".to_string()))), ReplyKind::Stop);
    let mut x = Exchange::new();
    x.begin(&bg).unwrap();
    assert!(x.complete(&Response::SpawnFg(Err("x".to_string()))).is_err());
    x.complete(&Response::SpawnBg(Ok(Id(1)))).unwrap();
}

#[test]
fn final_replies() {
    assert_eq!(stop_all_done(Response::StopAll(Ok(()))), Ok(()));
    assert_eq!(stop_all_done(Response::StopAll(Err("busy".to_string()))), Err("busy".to_string()));
    assert!(stop_all_done(Response::Collect(Ok(vec![]))).is_err());
    assert_eq!(collect_done(Response::Collect(Ok(vec![1, 2]))), Ok(vec![1, 2]));
    assert!(collect_done(Response::StopAll(Ok(()))).is_err());
}
