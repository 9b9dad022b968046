use evolve::fitness::{fitness_command, fitness_verdict};

#[test]
fn empty_test_command_never_spawns_and_fails() {
    // An empty command string is a defined failure, not an error: there is
    // nothing to spawn, and the verdict is false.
    assert!(fitness_command("").is_none());
    assert!(!fitness_verdict(None));
}

#[test]
fn whitespace_only_test_command_never_spawns() {
    assert!(fitness_command("   \t  ").is_none());
}

#[test]
fn test_command_splits_on_whitespace() {
    let cmd = fitness_command("cargo nextest run").unwrap();
    assert_eq!(cmd, vec![
        String::from("cargo"),
        String::from("nextest"),
        String::from("run"),
    ]);
}

#[test]
fn test_command_collapses_repeated_whitespace() {
    let cmd = fitness_command("  pytest   -q ").unwrap();
    assert_eq!(cmd, vec![String::from("pytest"), String::from("-q")]);
}

#[test]
fn verdict_is_exactly_a_zero_exit_status() {
    assert!(fitness_verdict(Some(true)));
    assert!(!fitness_verdict(Some(false)));
    assert!(!fitness_verdict(None));
}
