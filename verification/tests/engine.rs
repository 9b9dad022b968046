use evolve::engine::{
    evolution_step, pending_action, start_evolution, GenerationEvent, GenerationPhase, LoopAction,
    TreeState,
};

#[test]
fn first_generation_passes_and_loop_stops() {
    // Generation 1 mutation succeeds and tests pass: the loop terminates
    // after generation 1 even though the budget would allow more.
    let mut s = start_evolution(5, String::from("abc1234"));
    assert_eq!(pending_action(&s), LoopAction::RunMutation);
    let revert = evolution_step(&mut s, GenerationEvent::MutationFinished { success: true });
    assert!(!revert);
    assert_eq!(pending_action(&s), LoopAction::RunVerification);
    let revert = evolution_step(&mut s, GenerationEvent::VerificationFinished { passed: true });
    assert!(!revert);
    assert_eq!(s.phase, GenerationPhase::Succeeded);
    assert_eq!(s.generation, 1);
    // The passing tree is left intact: no revert was prescribed.
    assert_eq!(s.tree, TreeState::Mutated);
    assert_eq!(pending_action(&s), LoopAction::ReportSuccess);
}

#[test]
fn agent_failure_mid_run_reverts_to_original_baseline() {
    // The mutation agent exits non-zero on generation 2 of 3: the tree
    // reverts to the baseline, and generation 3 still runs against the
    // pristine baseline, not generation 2's partial result.
    let mut s = start_evolution(3, String::from("base999"));
    // Generation 1: mutation ran, tests failed.
    assert!(!evolution_step(&mut s, GenerationEvent::MutationFinished { success: true }));
    assert!(evolution_step(&mut s, GenerationEvent::VerificationFinished { passed: false }));
    assert_eq!(s.generation, 2);
    assert_eq!(s.tree, TreeState::AtBaseline);
    // Generation 2: the agent itself fails.
    let revert = evolution_step(&mut s, GenerationEvent::MutationFinished { success: false });
    assert!(revert);
    assert_eq!(s.baseline, String::from("base999"));
    assert_eq!(s.tree, TreeState::AtBaseline);
    assert_eq!(s.generation, 3);
    assert_eq!(s.phase, GenerationPhase::Mutating);
}

#[test]
fn budget_exhaustion_after_repeated_failures() {
    // With a budget of 2, two failed generations end the run; the tree is
    // left at the baseline.
    let mut s = start_evolution(2, String::from("deadbee"));
    assert!(evolution_step(&mut s, GenerationEvent::MutationFinished { success: false }));
    assert_eq!(s.generation, 2);
    assert!(!evolution_step(&mut s, GenerationEvent::MutationFinished { success: true }));
    assert!(evolution_step(&mut s, GenerationEvent::VerificationCrashed));
    assert_eq!(s.phase, GenerationPhase::Exhausted);
    assert_eq!(s.tree, TreeState::AtBaseline);
    assert_eq!(pending_action(&s), LoopAction::ReportExhausted);
}

#[test]
fn verifier_crash_is_treated_like_a_failed_generation() {
    let mut s = start_evolution(3, String::from("f00dfac"));
    assert!(!evolution_step(&mut s, GenerationEvent::MutationFinished { success: true }));
    let revert = evolution_step(&mut s, GenerationEvent::VerificationCrashed);
    assert!(revert);
    assert_eq!(s.phase, GenerationPhase::Mutating);
    assert_eq!(s.generation, 2);
}

#[test]
fn zero_budget_starts_exhausted() {
    let s = start_evolution(0, String::from("a000000"));
    assert_eq!(s.phase, GenerationPhase::Exhausted);
    assert_eq!(pending_action(&s), LoopAction::ReportExhausted);
}
