use cargo_tests::locate::locate_outcome;
use cargo_tests::locate::LocateError;
use cargo_tests::manifest::executable_prefix;
use cargo_tests::manifest::resolve_project;
use cargo_tests::manifest::ManifestError;
use cargo_tests::paths::parent_dir;
use cargo_tests::strings::trim_end;

#[test]
fn prefix_replaces_every_hyphen_and_appends_separator() {
    assert_eq!(executable_prefix("my-crate"), "my_crate-");
    assert_eq!(executable_prefix("a-b-c"), "a_b_c-");
}

#[test]
fn prefix_of_plain_name_only_appends_separator() {
    assert_eq!(executable_prefix("serde"), "serde-");
    assert_eq!(executable_prefix(""), "-");
}

#[test]
fn resolve_project_extracts_name_and_root() {
    let manifest = "[package]\nname = \"demo-lib\"\nversion = \"0.1.0\"\n";
    let loc = resolve_project("/work/demo/Cargo.toml", manifest).unwrap();
    assert_eq!(loc.root, "/work/demo");
    assert_eq!(loc.package, "demo-lib");
    assert_eq!(loc.prefix, "demo_lib-");
}

#[test]
fn resolve_project_rejects_malformed_manifest() {
    let r = resolve_project("/work/demo/Cargo.toml", "this is [not toml");
    assert_eq!(r.unwrap_err(), ManifestError::Malformed);
}

#[test]
fn resolve_project_rejects_missing_package_table() {
    let r = resolve_project("/work/demo/Cargo.toml", "[dependencies]\nserde = \"1\"\n");
    assert_eq!(r.unwrap_err(), ManifestError::MissingPackage);
}

#[test]
fn resolve_project_rejects_missing_name() {
    let r = resolve_project("/work/demo/Cargo.toml", "[package]\nversion = \"0.1.0\"\n");
    assert_eq!(r.unwrap_err(), ManifestError::MissingName);
}

#[test]
fn resolve_project_rejects_non_string_name() {
    let r = resolve_project("/work/demo/Cargo.toml", "[package]\nname = 5\n");
    assert_eq!(r.unwrap_err(), ManifestError::NameNotAString);
}

#[test]
fn parent_dir_drops_the_last_component() {
    assert_eq!(parent_dir("/work/demo/Cargo.toml"), "/work/demo");
    assert_eq!(parent_dir("Cargo.toml"), "");
}

#[test]
fn trim_end_removes_trailing_whitespace_only() {
    assert_eq!(trim_end("/work/demo/Cargo.toml\n"), "/work/demo/Cargo.toml");
    assert_eq!(trim_end("abc \t\r\n"), "abc");
    assert_eq!(trim_end(" abc"), " abc");
}

#[test]
fn locate_failure_is_fatal_with_exit_code_one() {
    let r = locate_outcome(false, Some("whatever".to_string()));
    let e = r.unwrap_err();
    assert_eq!(e, LocateError::CommandFailed);
    assert_eq!(e.exit_code(), 1);
}

#[test]
fn locate_invalid_text_is_fatal() {
    let r = locate_outcome(true, None);
    assert_eq!(r.unwrap_err(), LocateError::InvalidOutput);
}

#[test]
fn locate_success_trims_the_reported_path() {
    let r = locate_outcome(true, Some("/work/demo/Cargo.toml\n".to_string()));
    assert_eq!(r.unwrap(), "/work/demo/Cargo.toml");
}
