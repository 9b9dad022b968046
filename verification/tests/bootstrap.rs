use evolve::bootstrap::{bootstrap_outcome, plan_bootstrap, BootstrapAction};
use evolve::errors::EvolveError;
use evolve::settings::{resolve_settings, RawSettings};

fn raw_with_files(files: Vec<&str>) -> RawSettings {
    RawSettings {
        instruction: Some(String::from("improve the library")),
        test_command: None,
        max_generations: None,
        files: if files.is_empty() {
            None
        } else {
            Some(files.into_iter().map(String::from).collect())
        },
        project_type: None,
        bootstrap_command: None,
        file_extension: None,
        scaffold_content: None,
        primary_file: None,
    }
}

#[test]
fn bare_rust_target_gets_initializer_and_scaffold() {
    // files = ["src/lib.rs"], no manifest present, project_type absent:
    // the bootstrapper infers Rust, runs the Rust initializer as a library,
    // and scaffolds src/lib.rs with a placeholder since it is absent.
    let settings = resolve_settings(raw_with_files(vec!["src/lib.rs"])).unwrap();
    let plan = plan_bootstrap(&settings, false, &vec![false]);
    match &plan.action {
        BootstrapAction::RunInitializer { program, args } => {
            assert_eq!(program.as_str(), "cargo");
            assert_eq!(args, &vec![String::from("init"), String::from("--lib")]);
        }
        _ => panic!("expected the built-in initializer"),
    }
    assert_eq!(plan.scaffolds.len(), 1);
    assert_eq!(plan.scaffolds[0].path, "src/lib.rs");
    assert_eq!(plan.scaffolds[0].content, "// TODO: Implement\n");
}

#[test]
fn binary_rust_target_initializes_as_binary() {
    let settings = resolve_settings(raw_with_files(vec!["src/main.rs"])).unwrap();
    let plan = plan_bootstrap(&settings, false, &vec![true]);
    match &plan.action {
        BootstrapAction::RunInitializer { program, args } => {
            assert_eq!(program.as_str(), "cargo");
            assert_eq!(args, &vec![String::from("init"), String::from("--bin")]);
        }
        _ => panic!("expected the built-in initializer"),
    }
    assert!(plan.scaffolds.is_empty());
}

#[test]
fn existing_manifest_skips_bootstrap() {
    let settings = resolve_settings(raw_with_files(vec!["src/lib.rs"])).unwrap();
    let plan = plan_bootstrap(&settings, true, &vec![true]);
    assert!(matches!(plan.action, BootstrapAction::SkipBootstrap));
}

#[test]
fn python_target_skips_auto_bootstrap() {
    let settings = resolve_settings(raw_with_files(vec!["app.py"])).unwrap();
    let plan = plan_bootstrap(&settings, false, &vec![false]);
    assert!(matches!(plan.action, BootstrapAction::SkipBootstrap));
    assert_eq!(plan.scaffolds[0].content, "# TODO: Implement\n");
}

#[test]
fn custom_bootstrap_command_is_tokenized() {
    let mut raw = raw_with_files(vec!["src/lib.rs"]);
    raw.bootstrap_command = Some(String::from("cargo  init --lib"));
    let settings = resolve_settings(raw).unwrap();
    let plan = plan_bootstrap(&settings, false, &vec![true]);
    match &plan.action {
        BootstrapAction::RunCustom { tokens } => {
            assert_eq!(tokens, &vec![
                String::from("cargo"),
                String::from("init"),
                String::from("--lib"),
            ]);
        }
        _ => panic!("expected the custom command"),
    }
}

#[test]
fn rerunning_bootstrap_scaffolds_nothing() {
    // Once every tracked file exists, a second bootstrap run plans no
    // scaffold at all, whatever scaffold content is configured: no existing
    // file is ever overwritten.
    let mut raw = raw_with_files(vec!["src/lib.rs", "tests/basic.rs"]);
    raw.scaffold_content = Some(String::from("fn main() {}\n"));
    let settings = resolve_settings(raw).unwrap();
    let first = plan_bootstrap(&settings, true, &vec![false, false]);
    assert_eq!(first.scaffolds.len(), 2);
    assert_eq!(first.scaffolds[0].content, "fn main() {}\n");
    let second = plan_bootstrap(&settings, true, &vec![true, true]);
    assert!(second.scaffolds.is_empty());
}

#[test]
fn explicit_extension_overrides_file_name() {
    let mut raw = raw_with_files(vec!["scripts/tool"]);
    raw.file_extension = Some(String::from(".py"));
    let settings = resolve_settings(raw).unwrap();
    let plan = plan_bootstrap(&settings, true, &vec![false]);
    assert_eq!(plan.scaffolds[0].content, "# TODO: Implement\n");
}

#[test]
fn initializer_failure_is_fatal_but_custom_failure_is_not() {
    let custom = BootstrapAction::RunCustom { tokens: vec![String::from("false")] };
    assert_eq!(bootstrap_outcome(&custom, false), Ok(()));
    let init = BootstrapAction::RunInitializer {
        program: String::from("cargo"),
        args: vec![String::from("init")],
    };
    assert_eq!(bootstrap_outcome(&init, true), Ok(()));
    assert_eq!(bootstrap_outcome(&init, false), Err(EvolveError::BootstrapError));
}
