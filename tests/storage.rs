use pmppt::common::{decimal_string, emsg, padded3_string};
use pmppt::storage::Storage;
use pmppt::types::{ArtifactValue, ArtifactValueType, ConfigValue, IniLike};

fn list(v: &[&str]) -> ArtifactValue {
    ArtifactValue::StringList(v.iter().map(|s| s.to_string()).collect())
}

#[test]
fn set_then_get() {
    let mut s = Storage::new();
    s.set("DEVS", list(&["/dev/loop0"])).unwrap();
    assert_eq!(s.get("DEVS").unwrap(), list(&["/dev/loop0"]));
    assert_eq!(s.get("DEVS").unwrap().value_type(), ArtifactValueType::StringList);
}

#[test]
fn setting_twice_is_an_error() {
    let mut s = Storage::new();
    s.set("K", list(&["a"])).unwrap();
    assert!(s.set("K", list(&["b"])).is_err());
    assert_eq!(s.get("K").unwrap(), list(&["a"]));
}

#[test]
fn missing_key_is_an_error() {
    let mut s = Storage::new();
    assert!(s.get("nothing").is_err());
    s.set("other", list(&[])).unwrap();
    assert!(s.get("nothing").is_err());
}

#[test]
fn ini_builder() {
    let ini = IniLike::with_global(&["ioengine=sync"]).section("job", &["rw=read", "bs=4k"]);
    assert_eq!(ini.global, vec!["ioengine=sync".to_string()]);
    assert_eq!(ini.sections.len(), 1);
    assert_eq!(ini.sections[0].0, "job");
    assert_eq!(ini.sections[0].1, vec!["rw=read".to_string(), "bs=4k".to_string()]);
    let v = ConfigValue::Ini(ini.clone());
    assert_eq!(v, ConfigValue::Ini(ini));
}

#[test]
fn decimal_helpers() {
    assert_eq!(decimal_string(0), "0");
    assert_eq!(decimal_string(250000000), "250000000");
    assert_eq!(padded3_string(7), "007");
    assert_eq!(padded3_string(70), "070");
    assert_eq!(padded3_string(700), "700");
    let e: Result<(), String> = emsg("boom");
    assert_eq!(e, Err("boom".to_string()));
}
