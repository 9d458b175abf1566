use servo_bridge::bridge_build::{
    bridge_webidl, python_candidates, python_search_start, python_search_step, run_plan,
    version_probe_args, watch_directives_for, BridgeBuildError, PythonSearch,
};

#[test]
fn directives_watch_script_env_and_templates() {
    let d = watch_directives_for("/src/components/shared/embedder_bridge_build");
    assert_eq!(
        d,
        vec![
            "cargo::rerun-if-changed=/src/components/shared/embedder_bridge_build/../../script_bindings/codegen/embedder_bridge.py".to_string(),
            "cargo::rerun-if-env-changed=SERVO_BRIDGE_WEBIDL".to_string(),
            "cargo::rerun-if-changed=/src/components/shared/embedder_bridge_build/../../script_bindings/codegen/bridge/templates".to_string(),
        ]
    );
}

#[test]
fn webidl_setting_must_be_non_empty() {
    assert_eq!(bridge_webidl(None), None);
    assert_eq!(bridge_webidl(Some(String::new())), None);
    assert_eq!(bridge_webidl(Some("/x/bridge.webidl".to_string())), Some("/x/bridge.webidl".to_string()));
}

#[test]
fn plan_with_webidl() {
    let plan = run_plan("/m", Some("/x/b.webidl".to_string()), "/out");
    assert_eq!(plan.directives.len(), 3);
    let c = plan.codegen.ok().unwrap();
    assert_eq!(c.webidl_directive, "cargo::rerun-if-changed=/x/b.webidl");
    assert_eq!(
        c.script_args,
        vec!["/m/../../script_bindings/codegen/embedder_bridge.py".to_string(), "/out".to_string()]
    );
}

#[test]
fn plan_without_webidl() {
    let plan = run_plan("/m", None, "/out");
    assert_eq!(plan.directives.len(), 3);
    assert!(matches!(plan.codegen, Err(BridgeBuildError::WebidlNotSet)));
    assert!(matches!(run_plan("/m", Some(String::new()), "/out").codegen, Err(BridgeBuildError::WebidlNotSet)));
}

#[test]
fn candidates_in_order() {
    let c = python_candidates();
    assert_eq!(c.len(), 3);
    assert_eq!(c[0].program, "uv");
    assert_eq!(c[0].args, vec!["run".to_string(), "--frozen".to_string(), "python".to_string()]);
    assert_eq!(c[1].program, "python3");
    assert!(c[1].args.is_empty());
    assert_eq!(c[2].program, "python");
    assert_eq!(
        version_probe_args(&c[0]),
        vec!["run".to_string(), "--frozen".to_string(), "python".to_string(), "--version".to_string()]
    );
    assert_eq!(version_probe_args(&c[2]), vec!["--version".to_string()]);
}

fn search(works: [bool; 3]) -> PythonSearch {
    let mut s = python_search_start();
    loop {
        match s {
            PythonSearch::Probe(i) => s = python_search_step(i, works[i]),
            other => return other,
        }
    }
}

#[test]
fn search_picks_first_working() {
    assert!(search([true, true, true]) == PythonSearch::Use(0));
    assert!(search([false, true, true]) == PythonSearch::Use(1));
    assert!(search([false, false, true]) == PythonSearch::Use(2));
    assert!(search([false, false, false]) == PythonSearch::Exhausted);
    assert!(python_search_start() == PythonSearch::Probe(0));
}
