use cargo_tests::commands::coverage_env;
use cargo_tests::commands::merge_args;
use cargo_tests::commands::report_args;
use cargo_tests::commands::show_args;
use cargo_tests::commands::test_run_args;
use cargo_tests::paths::cov_dir;
use cargo_tests::paths::deps_dir;
use cargo_tests::paths::html_dir;
use cargo_tests::paths::html_index_path;
use cargo_tests::paths::profdata_path;
use cargo_tests::paths::profile_pattern;
use cargo_tests::pipeline::advance;
use cargo_tests::pipeline::clean_decision;
use cargo_tests::pipeline::next_action;
use cargo_tests::pipeline::report_decision;
use cargo_tests::pipeline::StageAction;
use cargo_tests::pipeline::StagePhase;

#[test]
fn clean_on_missing_workspace_is_a_noop() {
    assert!(!clean_decision(false));
    assert!(!clean_decision(false));
}

#[test]
fn clean_on_existing_workspace_removes_it_then_second_clean_is_a_noop() {
    assert!(clean_decision(true));
    // after the removal the directory is absent, so a second run does nothing
    assert!(!clean_decision(false));
}

#[test]
fn stage_machine_runs_every_step_in_order_on_success() {
    let mut phase = StagePhase::Start;
    let mut actions = Vec::new();
    while let Some(action) = next_action(&phase) {
        actions.push(action);
        phase = advance(&phase, true);
    }
    assert_eq!(phase, StagePhase::ReportsGenerated);
    assert_eq!(
        actions,
        vec![
            StageAction::CleanWorkspace,
            StageAction::RunTestSuite,
            StageAction::MergeProfiles,
            StageAction::ResolveTargets,
            StageAction::GenerateReports,
        ]
    );
}

#[test]
fn failed_test_run_aborts_before_merge_and_reports() {
    let mut phase = StagePhase::Start;
    let mut actions = Vec::new();
    while let Some(action) = next_action(&phase) {
        actions.push(action);
        let ok = action != StageAction::RunTestSuite;
        phase = advance(&phase, ok);
    }
    assert_eq!(phase, StagePhase::Aborted);
    assert_eq!(
        actions,
        vec![StageAction::CleanWorkspace, StageAction::RunTestSuite]
    );
    assert!(!actions.contains(&StageAction::MergeProfiles));
    assert!(!actions.contains(&StageAction::GenerateReports));
}

#[test]
fn failed_merge_aborts_before_reports() {
    let mut phase = StagePhase::Start;
    let mut actions = Vec::new();
    while let Some(action) = next_action(&phase) {
        actions.push(action);
        let ok = action != StageAction::MergeProfiles;
        phase = advance(&phase, ok);
    }
    assert_eq!(phase, StagePhase::Aborted);
    assert_eq!(
        actions,
        vec![
            StageAction::CleanWorkspace,
            StageAction::RunTestSuite,
            StageAction::MergeProfiles,
        ]
    );
    assert!(!actions.contains(&StageAction::GenerateReports));
}

#[test]
fn report_stage_regenerates_only_when_the_report_is_absent() {
    assert!(report_decision(false));
    assert!(!report_decision(true));
}

#[test]
fn workspace_paths_follow_the_fixed_layout() {
    assert_eq!(cov_dir("/w/demo"), "/w/demo/cov");
    assert_eq!(profdata_path("/w/demo", "demo-lib"), "/w/demo/cov/demo-lib.profdata");
    assert_eq!(profile_pattern("demo-lib"), "cov/demo-lib-%m.profraw");
    assert_eq!(html_dir("/w/demo"), "/w/demo/cov/html");
    assert_eq!(html_index_path("/w/demo"), "/w/demo/cov/html/index.html");
    assert_eq!(deps_dir("/w/demo"), "/w/demo/target/debug/deps");
}

#[test]
fn test_run_forwards_the_tokens_verbatim() {
    let args = test_run_args(&vec!["--".to_string(), "--nocapture".to_string()]);
    assert_eq!(
        args,
        vec!["test".to_string(), "--".to_string(), "--nocapture".to_string()]
    );
}

#[test]
fn coverage_environment_requests_instrumentation_and_profile_output() {
    let env = coverage_env("cov/demo-lib-%m.profraw");
    assert_eq!(env.len(), 2);
    assert_eq!(env[0].name, "RUSTFLAGS");
    assert_eq!(env[0].value, "-Zinstrument-coverage");
    assert_eq!(env[1].name, "LLVM_PROFILE_FILE");
    assert_eq!(env[1].value, "cov/demo-lib-%m.profraw");
}

#[test]
fn merge_invocation_lists_every_fragment_then_the_output() {
    let files = vec![
        "/w/demo/cov/a.profraw".to_string(),
        "/w/demo/cov/b.profraw".to_string(),
    ];
    let args = merge_args(&files, "/w/demo/cov/demo-lib.profdata");
    assert_eq!(
        args,
        vec![
            "merge".to_string(),
            "-sparse".to_string(),
            "/w/demo/cov/a.profraw".to_string(),
            "/w/demo/cov/b.profraw".to_string(),
            "-o".to_string(),
            "/w/demo/cov/demo-lib.profdata".to_string(),
        ]
    );
}

#[test]
fn report_invocation_names_the_profile_and_every_object() {
    let targets = vec!["--object".to_string(), "/w/d/t".to_string()];
    let args = report_args("/w/demo/cov/demo-lib.profdata", &targets);
    assert_eq!(
        args,
        vec![
            "report".to_string(),
            "--use-color".to_string(),
            "--ignore-filename-regex".to_string(),
            ".*/.cargo/registry".to_string(),
            "--instr-profile".to_string(),
            "/w/demo/cov/demo-lib.profdata".to_string(),
            "--object".to_string(),
            "/w/d/t".to_string(),
        ]
    );
}

#[test]
fn show_invocation_exports_html_into_the_workspace() {
    let targets = vec!["--object".to_string(), "/w/d/t".to_string()];
    let args = show_args("/w/demo/cov/demo-lib.profdata", "/w/demo/cov/html", &targets);
    assert_eq!(
        args,
        vec![
            "show".to_string(),
            "--use-color".to_string(),
            "--ignore-filename-regex".to_string(),
            ".*/.cargo/registry".to_string(),
            "--instr-profile".to_string(),
            "/w/demo/cov/demo-lib.profdata".to_string(),
            "--show-instantiations".to_string(),
            "--show-line-counts-or-regions".to_string(),
            "--Xdemangler=rustfilt".to_string(),
            "-format".to_string(),
            "html".to_string(),
            "-output-dir".to_string(),
            "/w/demo/cov/html".to_string(),
            "--object".to_string(),
            "/w/d/t".to_string(),
        ]
    );
}
