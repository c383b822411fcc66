use pmppt::args::{parse_args, spawn_mode_named, ArgValue};
use pmppt::protocol::SpawnMode;
use pmppt::types::{ConfigValue, IniLike};

fn text(k: &str, v: &str) -> (String, ArgValue) {
    (k.to_string(), ArgValue::Text(v.to_string()))
}

#[test]
fn sleep_args() {
    let a = vec![("secs".to_string(), ArgValue::Seconds { millis: 1500 })];
    assert_eq!(parse_args("sleep", &a), Ok(ConfigValue::Time(1500)));
    assert!(parse_args("sleep", &vec![text("secs", "1")]).is_err());
    assert!(parse_args("sleep", &vec![]).is_err());
}

#[test]
fn poller_and_lookup_args() {
    assert_eq!(
        parse_args("poller", &vec![text("pattern", "/proc/stat"), text("hint", "cpu")]),
        Ok(ConfigValue::PollArgs { pattern: "/proc/stat".to_string(), hint: Some("cpu".to_string()) })
    );
    assert!(parse_args("poller", &vec![text("hint", "cpu")]).is_err());
    assert!(parse_args("poller", &vec![text("pattern", "/x"), text("extra", "y")]).is_err());
    assert_eq!(
        parse_args("lookup_paths", &vec![text("pattern", "/dev/loop0")]),
        Ok(ConfigValue::String("/dev/loop0".to_string()))
    );
}

#[test]
fn launch_args() {
    let a = vec![
        text("comm", "sleep"),
        text("mode", "bgkill"),
        ("args".to_string(), ArgValue::List(vec!["30".to_string()])),
    ];
    assert_eq!(
        parse_args("launch", &a),
        Ok(ConfigValue::LaunchArgs {
            comm: "sleep".to_string(),
            mode: SpawnMode::BackgroundKill,
            args: vec!["30".to_string()],
            hint: None
        })
    );
    assert!(parse_args("launch", &vec![text("comm", "sleep"), text("mode", "later")]).is_err());
    assert_eq!(spawn_mode_named("fg"), Some(SpawnMode::Foreground));
    assert_eq!(spawn_mode_named("bgwait"), Some(SpawnMode::BackgroundWait));
    assert_eq!(spawn_mode_named("bg"), None);
}

#[test]
fn fio_and_argumentless_kinds() {
    let a = vec![
        ("global".to_string(), ArgValue::List(vec!["ioengine=sync".to_string()])),
        ("sections".to_string(), ArgValue::Table(vec![("job".to_string(), vec!["rw=read".to_string()])])),
    ];
    let expected = IniLike::with_global(&["ioengine=sync"]).section("job", &["rw=read"]);
    assert_eq!(parse_args("fio", &a), Ok(ConfigValue::Ini(expected)));
    assert!(parse_args("mpstat", &vec![text("x", "y")]).is_err());
    assert!(parse_args("mpstat", &vec![]).is_err());
}
