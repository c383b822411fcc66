use pmppt::scheduler::{
    shape_config, verify_config, ActivityConfig, Endpoint, RawChain, RawConfig, RawStage,
};

fn no_args() -> ActivityConfig {
    ActivityConfig { value: None, input: vec![], output: vec![] }
}

fn agent(name: &str, port: u16) -> (String, Endpoint) {
    (name.to_string(), Endpoint { host: "127.0.0.1".to_string(), port })
}

fn activity(kinds: &[&str]) -> Vec<(String, ActivityConfig)> {
    kinds.iter().map(|k| (k.to_string(), no_args())).collect()
}

fn chain(agent: &str, activities: Vec<Vec<(String, ActivityConfig)>>) -> RawChain {
    RawChain { agent: agent.to_string(), activities }
}

fn stage(entries: Vec<(&str, Vec<RawChain>)>) -> RawStage {
    RawStage { entries: entries.into_iter().map(|(n, c)| (n.to_string(), c)).collect() }
}

fn check(raw: RawConfig) -> Result<(), String> {
    verify_config(&shape_config(raw)?)
}

#[test]
fn should_not_verify_empty_agents() {
    let raw = RawConfig { agents: vec![], runtime: vec![] };
    check(raw).unwrap_err();
}

#[test]
fn should_not_verify_empty_runtime() {
    let raw = RawConfig { agents: vec![agent("a0", 8080)], runtime: vec![] };
    check(raw).unwrap_err();
}

#[test]
fn should_not_verify_multistage_runtime() {
    let raw = RawConfig {
        agents: vec![agent("a0", 8080)],
        runtime: vec![
            stage(vec![("normal_stage", vec![])]),
            stage(vec![("stage_with", vec![]), ("some_another_key", vec![])]),
        ],
    };
    check(raw).unwrap_err();
}

#[test]
fn should_not_verify_bad_agent_runtime() {
    let raw = RawConfig {
        agents: vec![agent("a0", 8080)],
        runtime: vec![stage(vec![("stage", vec![chain("bad_agent", vec![activity(&["activity"])])])])],
    };
    check(raw).unwrap_err();
}

#[test]
fn should_not_verify_multiactivity_runtime() {
    let raw = RawConfig {
        agents: vec![agent("a0", 8080)],
        runtime: vec![stage(vec![(
            "stage",
            vec![chain("a0", vec![activity(&["activity", "with_some_another_key"])])],
        )])],
    };
    check(raw).unwrap_err();
}

#[test]
fn verify_runtime_ok() {
    let lookup = ActivityConfig {
        value: None,
        input: vec![],
        output: vec![("output_artifact".to_string(), "PATHS".to_string())],
    };
    let iostat = ActivityConfig {
        value: None,
        input: vec![("input_artifact".to_string(), "PATHS".to_string())],
        output: vec![],
    };
    let raw = RawConfig {
        agents: vec![agent("a1", 50001), agent("a2", 50002)],
        runtime: vec![
            stage(vec![(
                "prepare",
                vec![
                    chain("a1", vec![activity(&["mpstat"]), activity(&["proc_meminfo"])]),
                    chain("a2", vec![activity(&["mpstat"]), activity(&["proc_meminfo"])]),
                ],
            )]),
            stage(vec![(
                "bench",
                vec![chain(
                    "a2",
                    vec![vec![("lookup_paths".to_string(), lookup)], vec![("iostat".to_string(), iostat)]],
                )],
            )]),
        ],
    };
    let scenario = shape_config(raw).unwrap();
    assert_eq!(scenario.stages.len(), 2);
    assert_eq!(scenario.stages[1].name, "bench");
    assert_eq!(scenario.stages[1].chains[0].1[1].0, "iostat");
    verify_config(&scenario).unwrap();
}
