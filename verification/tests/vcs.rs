use evolve::vcs::{baseline_command, baseline_next, revert_commands, BaselinePhase};

fn drive(repo_present: bool, staged_differs: bool) -> Vec<BaselinePhase> {
    let mut phase = BaselinePhase::CheckRepo;
    let mut visited = vec![phase];
    while phase != BaselinePhase::Done {
        let observed = match phase {
            BaselinePhase::CheckRepo => repo_present,
            BaselinePhase::CheckStaged => staged_differs,
            _ => false,
        };
        phase = baseline_next(phase, observed);
        visited.push(phase);
    }
    visited
}

#[test]
fn fresh_target_initializes_and_commits() {
    assert_eq!(drive(false, true), vec![
        BaselinePhase::CheckRepo,
        BaselinePhase::InitRepo,
        BaselinePhase::StageAll,
        BaselinePhase::CheckStaged,
        BaselinePhase::CommitGenesis,
        BaselinePhase::QueryHead,
        BaselinePhase::Done,
    ]);
}

#[test]
fn second_capture_commits_nothing() {
    // Right after a first capture the repository exists and nothing is
    // staged beyond the recorded state, so a second capture runs no commit
    // and reads the same head revision: capture is idempotent.
    let visited = drive(true, false);
    assert_eq!(visited, vec![
        BaselinePhase::CheckRepo,
        BaselinePhase::StageAll,
        BaselinePhase::CheckStaged,
        BaselinePhase::QueryHead,
        BaselinePhase::Done,
    ]);
    assert!(!visited.contains(&BaselinePhase::CommitGenesis));
}

#[test]
fn phase_commands_are_the_documented_invocations() {
    assert!(baseline_command(BaselinePhase::CheckRepo).is_none());
    assert_eq!(baseline_command(BaselinePhase::InitRepo).unwrap(), vec![String::from("init")]);
    assert_eq!(baseline_command(BaselinePhase::StageAll).unwrap(), vec![
        String::from("add"),
        String::from("."),
    ]);
    assert_eq!(baseline_command(BaselinePhase::CheckStaged).unwrap(), vec![
        String::from("diff"),
        String::from("--cached"),
        String::from("--quiet"),
    ]);
    assert_eq!(baseline_command(BaselinePhase::CommitGenesis).unwrap(), vec![
        String::from("commit"),
        String::from("-m"),
        String::from("Genesis"),
    ]);
    assert_eq!(baseline_command(BaselinePhase::QueryHead).unwrap(), vec![
        String::from("rev-parse"),
        String::from("HEAD"),
    ]);
    assert!(baseline_command(BaselinePhase::Done).is_none());
}

#[test]
fn revert_resets_hard_and_cleans_untracked() {
    let cmds = revert_commands(&String::from("0123abc"));
    assert_eq!(cmds, vec![
        vec![String::from("reset"), String::from("--hard"), String::from("0123abc")],
        vec![String::from("clean"), String::from("-fd")],
    ]);
}
