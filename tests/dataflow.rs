use pmppt::dataflow::{check_artifact_flow, check_unique_outputs};
use pmppt::scheduler::{ActivityConfig, Endpoint, RunStage, Scenario};

fn act(kind: &str, input: &[(&str, &str)], output: &[(&str, &str)]) -> (String, ActivityConfig) {
    let pairs = |v: &[(&str, &str)]| v.iter().map(|(a, b)| (a.to_string(), b.to_string())).collect();
    (kind.to_string(), ActivityConfig { value: None, input: pairs(input), output: pairs(output) })
}

fn scenario(stages: Vec<Vec<(&str, Vec<(String, ActivityConfig)>)>>) -> Scenario {
    Scenario {
        agents: vec![
            ("a1".to_string(), Endpoint { host: "127.0.0.1".to_string(), port: 50001 }),
            ("a2".to_string(), Endpoint { host: "127.0.0.1".to_string(), port: 50002 }),
        ],
        stages: stages
            .into_iter()
            .enumerate()
            .map(|(i, chains)| RunStage {
                name: format!("s{i}"),
                chains: chains.into_iter().map(|(a, c)| (a.to_string(), c)).collect(),
            })
            .collect(),
    }
}

#[test]
fn producer_earlier_in_chain() {
    let s = scenario(vec![vec![(
        "a1",
        vec![act("lookup_paths", &[], &[("paths", "DEVS")]), act("iostat", &[("devices", "DEVS")], &[])],
    )]]);
    assert!(check_artifact_flow(&s).is_ok());
}

#[test]
fn producer_in_earlier_stage() {
    let s = scenario(vec![
        vec![("a1", vec![act("lookup_paths", &[], &[("paths", "DEVS")])])],
        vec![("a2", vec![act("iostat", &[("devices", "DEVS")], &[])])],
    ]);
    assert!(check_artifact_flow(&s).is_ok());
}

#[test]
fn consumer_before_producer() {
    let s = scenario(vec![vec![(
        "a1",
        vec![act("iostat", &[("devices", "DEVS")], &[]), act("lookup_paths", &[], &[("paths", "DEVS")])],
    )]]);
    assert!(check_artifact_flow(&s).is_err());
}

#[test]
fn parallel_chains_do_not_feed_each_other() {
    let s = scenario(vec![vec![
        ("a1", vec![act("lookup_paths", &[], &[("paths", "DEVS")])]),
        ("a2", vec![act("iostat", &[("devices", "DEVS")], &[])]),
    ]]);
    assert!(check_artifact_flow(&s).is_err());
}

#[test]
fn artifact_names_written_once() {
    let ok = scenario(vec![vec![
        ("a1", vec![act("lookup_paths", &[], &[("paths", "A")])]),
        ("a2", vec![act("lookup_paths", &[], &[("paths", "B")])]),
    ]]);
    assert!(check_unique_outputs(&ok).is_ok());
    let twice = scenario(vec![
        vec![("a1", vec![act("lookup_paths", &[], &[("paths", "A")])])],
        vec![("a2", vec![act("lookup_paths", &[], &[("paths", "A")])])],
    ]);
    assert!(check_unique_outputs(&twice).is_err());
}
