use evolve::errors::EvolveError;
use evolve::settings::{
    default_files, default_generations, default_test_cmd, path_is_safe, resolve_settings,
    RawSettings,
};

fn empty_raw() -> RawSettings {
    RawSettings {
        instruction: None,
        test_command: None,
        max_generations: None,
        files: None,
        project_type: None,
        bootstrap_command: None,
        file_extension: None,
        scaffold_content: None,
        primary_file: None,
    }
}

#[test]
fn defaults_fill_every_optional_field() {
    let mut raw = empty_raw();
    raw.instruction = Some(String::from("add a parser"));
    let s = resolve_settings(raw).unwrap();
    assert_eq!(s.instruction, "add a parser");
    assert_eq!(s.test_command, "cargo nextest run");
    assert_eq!(s.max_generations, 5);
    assert_eq!(s.files, vec![String::from("src/lib.rs")]);
    assert!(s.project_type.is_none());
    assert!(s.bootstrap_command.is_none());
}

#[test]
fn missing_instruction_is_a_config_error() {
    assert_eq!(resolve_settings(empty_raw()).unwrap_err(), EvolveError::ConfigError);
}

#[test]
fn empty_instruction_is_a_config_error() {
    let mut raw = empty_raw();
    raw.instruction = Some(String::new());
    assert_eq!(resolve_settings(raw).unwrap_err(), EvolveError::ConfigError);
}

#[test]
fn zero_generation_budget_is_a_config_error() {
    let mut raw = empty_raw();
    raw.instruction = Some(String::from("work"));
    raw.max_generations = Some(0);
    assert_eq!(resolve_settings(raw).unwrap_err(), EvolveError::ConfigError);
}

#[test]
fn explicit_values_pass_through() {
    let mut raw = empty_raw();
    raw.instruction = Some(String::from("work"));
    raw.test_command = Some(String::from("pytest -q"));
    raw.max_generations = Some(2);
    raw.files = Some(vec![String::from("pkg/core.py"), String::from("tests/test_core.py")]);
    raw.project_type = Some(String::from("python"));
    let s = resolve_settings(raw).unwrap();
    assert_eq!(s.test_command, "pytest -q");
    assert_eq!(s.max_generations, 2);
    assert_eq!(s.files.len(), 2);
    assert_eq!(s.project_type.as_deref(), Some("python"));
}

#[test]
fn empty_file_list_falls_back_to_default() {
    let mut raw = empty_raw();
    raw.instruction = Some(String::from("work"));
    raw.files = Some(Vec::new());
    let s = resolve_settings(raw).unwrap();
    assert_eq!(s.files, vec![String::from("src/lib.rs")]);
}

#[test]
fn traversal_outside_the_target_is_a_config_error() {
    let mut raw = empty_raw();
    raw.instruction = Some(String::from("work"));
    raw.files = Some(vec![String::from("../secrets.txt")]);
    assert_eq!(resolve_settings(raw).unwrap_err(), EvolveError::ConfigError);
}

#[test]
fn absolute_path_is_a_config_error() {
    let mut raw = empty_raw();
    raw.instruction = Some(String::from("work"));
    raw.files = Some(vec![String::from("/etc/passwd")]);
    assert_eq!(resolve_settings(raw).unwrap_err(), EvolveError::ConfigError);
}

#[test]
fn path_safety_judges_components_not_substrings() {
    assert!(path_is_safe("src/lib.rs"));
    assert!(path_is_safe("a..b/file.rs"));
    assert!(path_is_safe("docs/..notes/x.md"));
    assert!(!path_is_safe(".."));
    assert!(!path_is_safe("a/../b"));
    assert!(!path_is_safe("a/.."));
    assert!(!path_is_safe("../a"));
    assert!(!path_is_safe(""));
    assert!(!path_is_safe("/abs"));
}

#[test]
fn stated_defaults_match_the_documented_values() {
    assert_eq!(default_test_cmd(), "cargo nextest run");
    assert_eq!(default_generations(), 5);
    assert_eq!(default_files(), vec![String::from("src/lib.rs")]);
}
