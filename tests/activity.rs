use pmppt::activity::{
    get_sleeper, iostat, launch, launch_fio, launch_flamegraph, launch_iostat, launch_iostat_on,
    launch_mpstat, lookup_paths, poller, proc_meminfo, proc_net_dev, Activity, PlotHint, Step,
};
use pmppt::protocol::{ForegroundOutput, Id, Request, Response, SpawnMode};
use pmppt::storage::Storage;
use pmppt::types::ArtifactValue;

fn strings(v: &[&str]) -> Vec<String> {
    v.iter().map(|s| s.to_string()).collect()
}

fn spawn_of(step: Step) -> (String, Vec<String>, SpawnMode) {
    match step {
        Step::Send(Request::Spawn { cmd, args, mode }) => (cmd, args, mode),
        other => panic!("not a spawn: {other:?}"),
    }
}

#[test]
fn predefined_launchers() {
    let store = Storage::new();
    assert_eq!(
        spawn_of(launch_mpstat().start_step(&store).unwrap()),
        ("mpstat".to_string(), strings(&["-P", "ALL", "1"]), SpawnMode::BackgroundKill)
    );
    assert_eq!(
        spawn_of(launch_flamegraph().start_step(&store).unwrap()),
        ("flamegraph".to_string(), strings(&["-F", "99", "--", "--all-cpus"]), SpawnMode::BackgroundWait)
    );
    assert_eq!(
        spawn_of(launch_iostat().start_step(&store).unwrap()),
        ("iostat".to_string(), strings(&["-d", "-t", "-x", "-m", "1"]), SpawnMode::BackgroundKill)
    );
    assert_eq!(
        spawn_of(launch_iostat_on(&strings(&["/dev/sda"])).start_step(&store).unwrap()).1,
        strings(&["-d", "-t", "-x", "-m", "1", "/dev/sda"])
    );
    assert_eq!(
        spawn_of(launch_fio(strings(&["--name=x"])).start_step(&store).unwrap()),
        ("fio".to_string(), strings(&["--name=x"]), SpawnMode::BackgroundWait)
    );
}

#[test]
fn predefined_pollers() {
    let store = Storage::new();
    assert_eq!(
        proc_meminfo().start_step(&store).unwrap(),
        Step::Send(Request::Poll { pattern: "/proc/meminfo".to_string() })
    );
    assert_eq!(
        proc_net_dev().start_step(&store).unwrap(),
        Step::Send(Request::Poll { pattern: "/proc/net/dev".to_string() })
    );
}

#[test]
fn sleeper_only_sleeps() {
    let store = Storage::new();
    let s = get_sleeper(1000);
    assert_eq!(s.start_step(&store).unwrap(), Step::Sleep(1000));
    assert_eq!(s.stop_step().unwrap(), Step::Nothing);
    assert_eq!(s.stop_done(None).unwrap(), None);
}

#[test]
fn poller_start_and_stop() {
    let mut store = Storage::new();
    let mut p = poller("/proc/stat", Some("cpu".to_string()));
    assert!(p.stop_step().is_err());
    assert_eq!(p.start_done(Response::Poll(Ok(Id(1))), &mut store), Ok(Some(Id(1))));
    assert_eq!(p.stop_step().unwrap(), Step::Send(Request::Stop { id: Id(1) }));
    assert!(p.stop_done(Some(Response::Stop(Ok(Id(2))))).is_err());
    assert!(p.stop_done(Some(Response::Stop(Err("gone".to_string())))).is_err());
    assert_eq!(
        p.stop_done(Some(Response::Stop(Ok(Id(1))))).unwrap(),
        Some(PlotHint { id: Id(1), hint: Some("cpu".to_string()) })
    );
}

#[test]
fn poller_failure_and_wrong_response() {
    let mut store = Storage::new();
    let mut p = poller("/nope*", None);
    assert!(p.start_done(Response::Poll(Err("empty".to_string())), &mut store).is_err());
    assert!(p.start_done(Response::StopAll(Ok(())), &mut store).is_err());
}

#[test]
fn foreground_capture() {
    let mut store = Storage::new();
    let mut l = launch("echo", SpawnMode::Foreground, strings(&["hello"]), None);
    let out = ForegroundOutput { id: Id(1), stdout: b"hello\n".to_vec(), stderr: vec![] };
    assert_eq!(l.start_done(Response::SpawnFg(Ok(out)), &mut store), Ok(Some(Id(1))));
    assert_eq!(l.stop_step().unwrap(), Step::Nothing);
    assert_eq!(l.stop_done(None).unwrap(), Some(PlotHint { id: Id(1), hint: None }));
}

#[test]
fn background_launch_needs_background_answer() {
    let mut store = Storage::new();
    let mut l = launch("sleep", SpawnMode::BackgroundKill, strings(&["30"]), None);
    assert!(l.start_done(Response::SpawnFg(Err("x".to_string())), &mut store).is_err());
    assert_eq!(l.start_done(Response::SpawnBg(Ok(Id(2))), &mut store), Ok(Some(Id(2))));
    assert_eq!(l.stop_step().unwrap(), Step::Send(Request::Stop { id: Id(2) }));
}

#[test]
fn artifact_dataflow() {
    let mut store = Storage::new();
    let mut look = lookup_paths("/dev/loop0", "DEVS");
    assert_eq!(
        look.start_step(&store).unwrap(),
        Step::Send(Request::LookupPaths { pattern: "/dev/loop0".to_string() })
    );
    let resp = Response::LookupPaths(Ok(strings(&["/dev/loop0"])));
    assert_eq!(look.start_done(resp, &mut store), Ok(None));
    assert_eq!(store.get("DEVS").unwrap(), ArtifactValue::StringList(strings(&["/dev/loop0"])));
    let io = iostat(Some("DEVS".to_string()));
    let (_, args, mode) = spawn_of(io.start_step(&store).unwrap());
    assert_eq!(args.last().unwrap(), "/dev/loop0");
    assert_eq!(mode, SpawnMode::BackgroundKill);
    // a second lookup into the same artifact is a wiring error
    let resp = Response::LookupPaths(Ok(strings(&["/dev/loop1"])));
    assert!(look.start_done(resp, &mut store).is_err());
}

#[test]
fn iostat_on_missing_artifact_fails() {
    let store = Storage::new();
    assert!(iostat(Some("DEVS".to_string())).start_step(&store).is_err());
}

#[test]
fn failed_lookup_fails_the_activity() {
    let mut store = Storage::new();
    let mut look = lookup_paths("/none*", "P");
    assert!(look.start_done(Response::LookupPaths(Err("empty".to_string())), &mut store).is_err());
    assert!(store.get("P").is_err());
    assert!(matches!(look, Activity::Lookup { .. }));
}
