use cargo_tests::dispatch::dispatch;
use cargo_tests::dispatch::usage_lines;
use cargo_tests::dispatch::Subcommand;

fn strings(items: &[&str]) -> Vec<String> {
    items.iter().map(|s| s.to_string()).collect()
}

#[test]
fn clean_token_selects_the_clean_stage() {
    let plan = dispatch(&strings(&["clean"]));
    assert_eq!(plan.subcommand, Subcommand::Clean);
    assert!(plan.test_args.is_empty());
}

#[test]
fn report_token_selects_the_report_stage() {
    let plan = dispatch(&strings(&["report"]));
    assert_eq!(plan.subcommand, Subcommand::Report);
    assert!(plan.test_args.is_empty());
}

#[test]
fn all_token_selects_every_stage_with_remaining_args() {
    let plan = dispatch(&strings(&["all", "--release"]));
    assert_eq!(plan.subcommand, Subcommand::All);
    assert_eq!(plan.test_args, strings(&["--release"]));
}

#[test]
fn help_token_selects_usage_only() {
    let plan = dispatch(&strings(&["help"]));
    assert_eq!(plan.subcommand, Subcommand::Help);
    assert!(plan.test_args.is_empty());
}

#[test]
fn wrapper_token_is_skipped() {
    let plan = dispatch(&strings(&["tests", "clean"]));
    assert_eq!(plan.subcommand, Subcommand::Clean);
    assert!(plan.test_args.is_empty());
}

#[test]
fn unrecognized_tokens_pass_through_to_the_test_runner() {
    let plan = dispatch(&strings(&["--", "--nocapture"]));
    assert_eq!(plan.subcommand, Subcommand::PassThrough);
    assert_eq!(plan.test_args, strings(&["--", "--nocapture"]));
}

#[test]
fn absent_subcommand_runs_tests_with_no_args() {
    let plan = dispatch(&strings(&[]));
    assert_eq!(plan.subcommand, Subcommand::PassThrough);
    assert!(plan.test_args.is_empty());

    let wrapped = dispatch(&strings(&["tests"]));
    assert_eq!(wrapped.subcommand, Subcommand::PassThrough);
    assert!(wrapped.test_args.is_empty());
}

#[test]
fn usage_text_names_every_subcommand() {
    let lines = usage_lines();
    assert_eq!(lines.len(), 7);
    assert_eq!(lines[0], "cargo tests");
    assert_eq!(lines[4], "    cargo tests all: runs clean && tests && report");
    assert_eq!(lines[5], "    cargo tests clean: cleans up cov artifacts");
    assert_eq!(lines[6], "    cargo tests report: open cov report");
}
