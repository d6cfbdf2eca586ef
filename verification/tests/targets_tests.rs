use cargo_tests::manifest::resolve_project;
use cargo_tests::targets::target_args;
use cargo_tests::targets::DepsEntry;

fn entry(name: &str, dir: &str, is_file: bool) -> DepsEntry {
    DepsEntry {
        file_name: name.to_string(),
        full_path: format!("{}/{}", dir, name),
        is_file,
    }
}

#[test]
fn target_list_keeps_exactly_one_binary_per_matching_file() {
    let manifest = "[package]\nname = \"demo-lib\"\n";
    let loc = resolve_project("/w/demo/Cargo.toml", manifest).unwrap();
    assert_eq!(loc.prefix, "demo_lib-");
    let dir = "/w/demo/target/debug/deps";
    let entries = vec![
        entry("demo_lib-abc123", dir, true),
        entry("demo_lib-abc123.d", dir, true),
    ];
    let args = target_args(&entries, &loc.prefix);
    assert_eq!(
        args,
        vec![
            "--object".to_string(),
            "/w/demo/target/debug/deps/demo_lib-abc123".to_string(),
        ]
    );
}

#[test]
fn target_list_is_empty_when_nothing_matches() {
    let dir = "/w/demo/target/debug/deps";
    let entries = vec![
        entry("other_crate-1111", dir, true),
        entry("demo_lib-2222.d", dir, true),
    ];
    let args = target_args(&entries, "demo_lib-");
    assert!(args.is_empty());
}

#[test]
fn target_list_keeps_every_matching_binary_in_order() {
    let dir = "/w/demo/target/debug/deps";
    let entries = vec![
        entry("demo_lib-1111", dir, true),
        entry("unrelated-3333", dir, true),
        entry("demo_lib-2222", dir, true),
        entry("demo_lib-2222.d", dir, true),
    ];
    let args = target_args(&entries, "demo_lib-");
    assert_eq!(
        args,
        vec![
            "--object".to_string(),
            "/w/demo/target/debug/deps/demo_lib-1111".to_string(),
            "--object".to_string(),
            "/w/demo/target/debug/deps/demo_lib-2222".to_string(),
        ]
    );
}

#[test]
fn target_list_skips_directories() {
    let dir = "/w/demo/target/debug/deps";
    let entries = vec![entry("demo_lib-subdir", dir, false)];
    let args = target_args(&entries, "demo_lib-");
    assert!(args.is_empty());
}

#[test]
fn target_list_keeps_names_without_extension_even_with_inner_dots() {
    let dir = "/w/demo/target/debug/deps";
    let entries = vec![
        entry("demo_lib-a.b", dir, true),
        entry("demo_lib-a.b.d", dir, true),
    ];
    let args = target_args(&entries, "demo_lib-");
    assert_eq!(
        args,
        vec![
            "--object".to_string(),
            "/w/demo/target/debug/deps/demo_lib-a.b".to_string(),
        ]
    );
}
