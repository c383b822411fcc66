use pmppt::activity::{Activity, PlotHint};
use pmppt::fio::{fio_command_line, launch_fio_ini};
use pmppt::protocol::{Id, SpawnMode};
use pmppt::scheduler::{
    activity_map_line, create_activity, create_runtime, forward_indices, reverse_indices,
    verify_config, ActivityConfig, Endpoint, RunStage, Scenario,
};
use pmppt::types::{ConfigValue, IniLike};

fn cfg(value: Option<ConfigValue>) -> ActivityConfig {
    ActivityConfig { value, input: vec![], output: vec![] }
}

fn scenario(agents: &[&str], stage_agents: &[&str]) -> Scenario {
    Scenario {
        agents: agents
            .iter()
            .map(|a| (a.to_string(), Endpoint { host: "127.0.0.1".to_string(), port: 50001 }))
            .collect(),
        stages: vec![RunStage {
            name: "s1".to_string(),
            chains: stage_agents
                .iter()
                .map(|a| (a.to_string(), vec![("sleep".to_string(), cfg(Some(ConfigValue::Time(1000))))]))
                .collect(),
        }],
    }
}

#[test]
fn scenario_checks() {
    assert!(verify_config(&scenario(&["a1", "a2"], &["a1", "a2"])).is_ok());
    assert!(verify_config(&scenario(&["a1"], &["bad_agent"])).is_err());
    assert!(verify_config(&scenario(&[], &[])).is_err());
    let mut s = scenario(&["a1"], &[]);
    s.stages.clear();
    assert!(verify_config(&s).is_err());
}

#[test]
fn registry_builds_activities() {
    assert_eq!(
        create_activity("sleep", &cfg(Some(ConfigValue::Time(1500)))).unwrap(),
        Activity::Sleeper { millis: 1500 }
    );
    assert!(create_activity("sleep", &cfg(None)).is_err());
    assert!(create_activity("unknown", &cfg(None)).is_err());
    assert!(create_activity("mpstat", &cfg(None)).is_ok());
    let poll = ConfigValue::PollArgs { pattern: "/proc/stat".to_string(), hint: None };
    assert!(matches!(create_activity("poller", &cfg(Some(poll))).unwrap(), Activity::Poller { .. }));
    let mut look = cfg(Some(ConfigValue::String("/dev/loop0".to_string())));
    assert!(create_activity("lookup_paths", &look).is_err());
    look.output.push(("paths".to_string(), "DEVS".to_string()));
    assert_eq!(
        create_activity("lookup_paths", &look).unwrap(),
        Activity::Lookup { pattern: "/dev/loop0".to_string(), output: "DEVS".to_string() }
    );
    let mut io = cfg(None);
    io.input.push(("devices".to_string(), "DEVS".to_string()));
    assert_eq!(
        create_activity("iostat", &io).unwrap(),
        Activity::Iostat { devices: Some("DEVS".to_string()), id: None }
    );
}

#[test]
fn runtime_keeps_shape() {
    let rt = create_runtime(&scenario(&["a1", "a2"], &["a1", "a2"])).unwrap();
    assert_eq!(rt.len(), 1);
    assert_eq!(rt[0].name, "s1");
    assert_eq!(rt[0].chains[1].0, "a2");
    assert_eq!(rt[0].chains[1].1[0].0, "sleep");
    let mut bad = scenario(&["a1"], &["a1"]);
    bad.stages[0].chains[0].1.push(("nope".to_string(), cfg(None)));
    assert!(create_runtime(&bad).is_err());
}

#[test]
fn stage_orders() {
    assert_eq!(forward_indices(3), vec![0, 1, 2]);
    assert_eq!(reverse_indices(3), vec![2, 1, 0]);
    assert_eq!(reverse_indices(0), Vec::<usize>::new());
}

#[test]
fn map_lines() {
    let h = PlotHint { id: Id(1), hint: None };
    assert_eq!(activity_map_line("launch", &h), "001 launch \n");
    let h = PlotHint { id: Id(12), hint: Some("bw".to_string()) };
    assert_eq!(activity_map_line("fio", &h), "012 fio bw\n");
}

#[test]
fn fio_translation() {
    let ini = IniLike::with_global(&["ioengine=sync", "write_bw_log=bw"])
        .section("job1", &["rw=read", "write_lat_log=lat"]);
    let (args, hint) = fio_command_line(&ini);
    assert_eq!(
        args,
        vec!["--ioengine=sync", "--write_bw_log=bw", "--name=job1", "--rw=read", "--write_lat_log=lat"]
    );
    assert_eq!(hint, "bw lat");
    match launch_fio_ini(&ini) {
        Activity::Launcher { comm, mode, hint, .. } => {
            assert_eq!(comm, "fio");
            assert_eq!(mode, SpawnMode::BackgroundWait);
            assert_eq!(hint, Some("bw lat".to_string()));
        }
        other => panic!("unexpected {other:?}"),
    }
    let plain = IniLike::with_global(&["rw=write"]);
    assert!(matches!(launch_fio_ini(&plain), Activity::Launcher { hint: None, .. }));
}

#[test]
fn registry_builds_fio() {
    let ini = IniLike::with_global(&["write_iops_log=iops"]);
    let a = create_activity("fio", &cfg(Some(ConfigValue::Ini(ini)))).unwrap();
    match a {
        Activity::Launcher { comm, args, hint, .. } => {
            assert_eq!(comm, "fio");
            assert_eq!(args, vec!["--write_iops_log=iops".to_string()]);
            assert_eq!(hint, Some("iops".to_string()));
        }
        other => panic!("unexpected {other:?}"),
    }
    assert!(create_activity("fio", &cfg(None)).is_err());
}
