use ml_cookie_cutter::builder::{
    create_crate_structure, create_workspace_cargo_toml, process_yaml_structure,
};
use ml_cookie_cutter::config::{load, ConfigError, ConfigNode, MapKey, ReadError};
use ml_cookie_cutter::content::create_initial_content;
use ml_cookie_cutter::plan::Action;

fn segs(parts: &[&str]) -> Vec<String> {
    parts.iter().map(|p| p.to_string()).collect()
}

fn has_dir(plan: &[Action], parts: &[&str]) -> bool {
    let want = segs(parts);
    plan.iter().any(|a| matches!(a, Action::MkDir(p) if *p == want))
}

fn file_content(plan: &[Action], parts: &[&str]) -> Option<Option<String>> {
    let want = segs(parts);
    for a in plan {
        if let Action::WriteFile(p, c) = a {
            if *p == want {
                return Some(c.clone());
            }
        }
    }
    None
}

fn has_file(plan: &[Action], parts: &[&str]) -> bool {
    file_content(plan, parts).is_some()
}

fn plan_for(yaml: &str) -> Vec<Action> {
    let node = match load(Ok(yaml.to_string())) {
        Ok(node) => node,
        Err(e) => panic!("config did not load: {:?}", e),
    };
    let base: Vec<String> = Vec::new();
    process_yaml_structure(&base, &node)
}

#[test]
fn test_create_crate_structure() {
    let base: Vec<String> = Vec::new();
    let plan = create_crate_structure(&base, "test-crate");

    assert!(has_file(&plan, &["test-crate", "src", "lib.rs"]));
    assert!(has_file(&plan, &["test-crate", "Cargo.toml"]));
    assert!(has_file(&plan, &["test-crate", "tests", "integration_test.rs"]));
    assert!(has_dir(&plan, &["test-crate", "benches"]));
    assert!(has_dir(&plan, &["test-crate", "examples"]));

    let lib = file_content(&plan, &["test-crate", "src", "lib.rs"]).unwrap().unwrap();
    assert!(lib.contains("#![warn(missing_docs)]"));
    let manifest = file_content(&plan, &["test-crate", "Cargo.toml"]).unwrap().unwrap();
    assert!(manifest.contains("[package]\nname = \"test-crate\""));
}

#[test]
fn test_create_workspace_cargo_toml() {
    let action = create_workspace_cargo_toml();
    match action {
        Action::WriteFile(path, Some(content)) => {
            assert_eq!(path, segs(&["Cargo.toml"]), "Cargo.toml not created");
            assert!(content.contains("[workspace]"), "Missing workspace configuration");
            assert!(content.contains("members = ["), "Missing workspace members");
            assert!(content.contains("ml-core"), "Missing ml-core crate");
            assert!(
                content.contains("[workspace.dependencies]"),
                "Missing workspace dependencies"
            );
        }
        _ => panic!("Cargo.toml not created"),
    }
}

#[test]
fn test_process_yaml_structure() {
    let plan = plan_for(
        r#"
            - src:
                - lib.rs
                - main.rs
            - tests:
                - test_main.rs
            - data:
                - raw:
                - processed:
        "#,
    );

    assert!(has_dir(&plan, &["src"]));
    assert!(has_file(&plan, &["src", "lib.rs"]));
    assert!(has_file(&plan, &["src", "main.rs"]));
    assert!(has_dir(&plan, &["tests"]));
    assert!(has_file(&plan, &["tests", "test_main.rs"]));
    assert!(has_dir(&plan, &["data", "raw"]));
    assert!(has_dir(&plan, &["data", "processed"]));
}

#[test]
fn test_create_initial_content() {
    let test_cases = vec![
        ("lib.rs", true, "#![warn(missing_docs)]"),
        ("Cargo.toml", true, "[package]"),
        ("README.md", true, "# Rust ML Project"),
        ("random.txt", false, ""),
    ];

    for (filename, should_have_content, expected_content) in test_cases {
        let content = create_initial_content(filename);

        if should_have_content {
            assert!(content.is_some(), "Should have content for {}", filename);
            assert!(
                content.unwrap().contains(expected_content),
                "Content for {} doesn't contain expected text",
                filename
            );
        } else {
            assert!(content.is_none(), "Should not have content for {}", filename);
        }
    }
}

#[test]
fn test_special_characters() {
    let special_name = "test-with-\u{e7}\u{2030}\u{b9}\u{e6}\u{ae}\u{160}\u{e5}\u{ad}\u{2014}\u{e7}\u{ac}\u{a6}";
    let base: Vec<String> = Vec::new();
    let plan = create_crate_structure(&base, special_name);

    assert!(has_dir(&plan, &[special_name]));
    assert!(has_file(&plan, &[special_name, "src", "lib.rs"]));
}

#[test]
fn test_concurrent_creation() {
    let base: Vec<String> = Vec::new();
    let crate_names: Vec<_> = (0..10).map(|i| format!("test-crate-{}", i)).collect();

    let plans: Vec<_> = crate_names
        .iter()
        .map(|name| create_crate_structure(&base, name))
        .collect();

    for (name, plan) in crate_names.iter().zip(plans.iter()) {
        assert!(has_dir(plan, &[name]));
        assert!(has_file(plan, &[name, "src", "lib.rs"]));
    }
}

#[test]
fn test_one_action_per_leaf_and_key() {
    // Two scalar leaves and three plain mapping keys: exactly two file
    // actions and three directory actions, nothing else.
    let plan = plan_for("src:\n  - lib.rs\n  - main.rs\ndocs:\nlogs:\n");
    let dirs = plan.iter().filter(|a| matches!(a, Action::MkDir(_))).count();
    let files = plan
        .iter()
        .filter(|a| matches!(a, Action::WriteFile(_, _)))
        .count();
    assert_eq!(files, 2);
    assert_eq!(dirs, 3);
    assert_eq!(plan.len(), 5);
}

#[test]
fn test_rerun_directories_only() {
    // No scalar leaves: the plan holds directory actions alone, and a
    // second run over the same tree yields the identical plan, so nothing
    // is truncated and the directory set cannot change.
    let yaml = "data:\n  raw:\n  processed:\n";
    let plan = plan_for(yaml);
    assert!(!plan.is_empty());
    assert!(plan.iter().all(|a| matches!(a, Action::MkDir(_))));
    let again = plan_for(yaml);
    assert_eq!(plan, again);
}

#[test]
fn test_files_key_creates_files_in_place() {
    let plan = plan_for("files:\n  - a.txt\n  - b.txt\n");
    assert_eq!(
        plan,
        vec![
            Action::WriteFile(segs(&["a.txt"]), None),
            Action::WriteFile(segs(&["b.txt"]), None),
        ]
    );
    assert!(!has_dir(&plan, &["files"]));
}

#[test]
fn test_files_key_under_directory() {
    let plan = plan_for("sub:\n  files:\n    - a.txt\n");
    assert!(has_dir(&plan, &["sub"]));
    assert_eq!(file_content(&plan, &["sub", "a.txt"]), Some(None));
    assert!(!has_dir(&plan, &["sub", "files"]));
}

#[test]
fn test_files_key_with_mapping_value_is_ordinary() {
    // A `files` key whose value is not a sequence is an ordinary key: it
    // becomes a directory of that name.
    let plan = plan_for("files:\n  inner:\n");
    assert!(has_dir(&plan, &["files"]));
    assert!(has_dir(&plan, &["files", "inner"]));
}

#[test]
fn test_crates_key_generates_skeletons() {
    let plan = plan_for("crates:\n  core:\n  data:\n");
    for name in ["core", "data"] {
        assert!(has_dir(&plan, &[name, "src"]));
        assert!(has_dir(&plan, &[name, "tests"]));
        assert!(has_dir(&plan, &[name, "benches"]));
        assert!(has_dir(&plan, &[name, "examples"]));
        let manifest = file_content(&plan, &[name, "Cargo.toml"]).unwrap().unwrap();
        assert!(manifest.contains(name));
    }
    assert!(!has_dir(&plan, &["crates"]));
}

#[test]
fn test_modules_key_alias() {
    let plan = plan_for("modules:\n  engine:\n");
    assert!(has_dir(&plan, &["engine", "src"]));
    let manifest = file_content(&plan, &["engine", "Cargo.toml"]).unwrap().unwrap();
    assert_eq!(
        manifest,
        "[package]\nname = \"engine\"\nversion = \"0.1.0\"\nedition = \"2021\"\n\n[dependencies]\n"
    );
}

#[test]
fn test_non_string_key_skipped() {
    // The numeric key contributes no action and raises no error.
    let plan = plan_for("1: ignored\ndocs:\n");
    assert_eq!(plan, vec![Action::MkDir(segs(&["docs"]))]);
}

#[test]
fn test_non_string_key_parsed_as_other() {
    let node = load(Ok("7: x\n".to_string())).unwrap();
    match node {
        ConfigNode::Mapping(entries) => {
            assert_eq!(entries.len(), 1);
            assert_eq!(entries[0].0, MapKey::Other);
        }
        other => panic!("expected a mapping, got {:?}", other),
    }
}

#[test]
fn test_missing_config_not_found() {
    // A missing configuration file surfaces as NotFound; the loader
    // performs no filesystem work.
    let r = load(Err(ReadError::NotFound));
    assert_eq!(r, Err(ConfigError::NotFound));
}

#[test]
fn test_unreadable_config_io_error() {
    let r = load(Err(ReadError::Other("permission denied".to_string())));
    assert_eq!(r, Err(ConfigError::Io("permission denied".to_string())));
}

#[test]
fn test_malformed_yaml_parse_error() {
    let r = load(Ok("]{ not yaml: [".to_string()));
    match r {
        Err(ConfigError::Parse(_)) => {}
        other => panic!("expected a parse error, got {:?}", other),
    }
}

#[test]
fn test_example_scenario_plan() {
    // The worked example: two source files and two nested data
    // directories, in walk order, with the nested files left empty.
    let plan = plan_for(
        "- src:\n    - lib.rs\n    - main.rs\n- data:\n    - raw:\n    - processed:\n",
    );
    assert_eq!(
        plan,
        vec![
            Action::MkDir(segs(&["src"])),
            Action::WriteFile(segs(&["src", "lib.rs"]), None),
            Action::WriteFile(segs(&["src", "main.rs"]), None),
            Action::MkDir(segs(&["data"])),
            Action::MkDir(segs(&["data", "raw"])),
            Action::MkDir(segs(&["data", "processed"])),
        ]
    );
}

#[test]
fn test_top_level_scalar_takes_boilerplate() {
    // Directly under the project root the content table applies; deeper
    // scalars are written empty.
    let plan = plan_for("- README.md\n- docs:\n    - README.md\n");
    let top = file_content(&plan, &["README.md"]).unwrap();
    assert!(top.unwrap().contains("# Rust ML Project"));
    let nested = file_content(&plan, &["docs", "README.md"]).unwrap();
    assert_eq!(nested, None);
}

#[test]
fn test_scalar_root_creates_single_file() {
    let plan = plan_for("notes.txt\n");
    assert_eq!(plan, vec![Action::WriteFile(segs(&["notes.txt"]), None)]);
}

#[test]
fn test_null_root_is_no_op() {
    let plan = plan_for("~\n");
    assert!(plan.is_empty());
}

#[test]
fn test_crate_skeleton_exact_plan() {
    let base = segs(&["top"]);
    let plan = create_crate_structure(&base, "core");
    assert_eq!(plan.len(), 8);
    assert_eq!(plan[0], Action::MkDir(segs(&["top", "core"])));
    assert_eq!(plan[1], Action::MkDir(segs(&["top", "core", "src"])));
    assert_eq!(plan[2], Action::MkDir(segs(&["top", "core", "tests"])));
    assert_eq!(plan[3], Action::MkDir(segs(&["top", "core", "benches"])));
    assert_eq!(plan[4], Action::MkDir(segs(&["top", "core", "examples"])));
    assert_eq!(
        plan[5],
        Action::WriteFile(
            segs(&["top", "core", "src", "lib.rs"]),
            Some("//! core crate\n\n#![warn(missing_docs)]\n".to_string()),
        )
    );
    assert_eq!(
        plan[6],
        Action::WriteFile(
            segs(&["top", "core", "Cargo.toml"]),
            Some(
                "[package]\nname = \"core\"\nversion = \"0.1.0\"\nedition = \"2021\"\n\n[dependencies]\n"
                    .to_string()
            ),
        )
    );
    assert_eq!(
        plan[7],
        Action::WriteFile(
            segs(&["top", "core", "tests", "integration_test.rs"]),
            Some("//! Integration tests\n".to_string()),
        )
    );
}
