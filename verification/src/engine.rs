//! The evolution loop as a state machine: generations of mutate-then-verify
//! with revert-to-baseline on every failure, a strict generation budget, and
//! immediate termination on the first passing verification. A driver
//! performs the prescribed actions and feeds each outcome back as an event.

use vstd::prelude::*;

verus! {

/// What the machine knows of the target's working tree.
#[derive(Clone, Copy, Debug, PartialEq, Eq, Structural)]
pub enum TreeState {
    /// Byte-identical to the baseline snapshot.
    AtBaseline,
    /// Possibly changed by the mutation agent.
    Mutated,
}

/// Where a run stands.
#[derive(Clone, Copy, Debug, PartialEq, Eq, Structural)]
pub enum GenerationPhase {
    /// The mutation agent is to run for the current generation.
    Mutating,
    /// The mutation succeeded; the fitness command is to run.
    Verifying,
    /// A generation passed verification; the run is over and the passing
    /// tree is left intact.
    Succeeded,
    /// The budget ran out without a pass; the tree stands at the baseline.
    Exhausted,
}

/// The state of a run after bootstrap and baseline capture.
pub struct EvolutionState {
    /// The current generation, numbered from 1.
    pub generation: u32,
    /// The generation budget.
    pub max_generations: u32,
    /// The baseline revision, captured once and never changed mid-run.
    pub baseline: String,
    pub phase: GenerationPhase,
    pub tree: TreeState,
}

/// The outcome of the action a phase prescribed.
pub enum GenerationEvent {
    /// The mutation agent exited; `success` is a zero exit status.
    MutationFinished { success: bool },
    /// The fitness command ran; `passed` is a zero exit status.
    VerificationFinished { passed: bool },
    /// The fitness command could not be run at all; treated as a failed
    /// generation, distinguishable only in logs.
    VerificationCrashed,
}

/// What the driver is to do next.
#[derive(Clone, Copy, Debug, PartialEq, Eq, Structural)]
pub enum LoopAction {
    RunMutation,
    RunVerification,
    ReportSuccess,
    ReportExhausted,
}

/// The invariant every reachable state satisfies: the generation counter
/// stays within the budget, and the tree is at the baseline whenever a new
/// mutation is about to run and after exhaustion, mutated only between a
/// mutation and its verdict or on final success.
pub open spec fn state_wf(s: EvolutionState) -> bool {
    &&& match s.phase {
        GenerationPhase::Mutating => 1 <= s.generation <= s.max_generations,
        GenerationPhase::Verifying => 1 <= s.generation <= s.max_generations,
        GenerationPhase::Succeeded => 1 <= s.generation <= s.max_generations,
        GenerationPhase::Exhausted => s.generation == s.max_generations,
    }
    &&& match s.phase {
        GenerationPhase::Mutating => s.tree is AtBaseline,
        GenerationPhase::Verifying => s.tree is Mutated,
        GenerationPhase::Succeeded => s.tree is Mutated,
        GenerationPhase::Exhausted => s.tree is AtBaseline,
    }
}

/// The state a run starts in: generation 1 about to mutate, or immediately
/// exhausted on a zero budget.
pub open spec fn spec_start(max_generations: u32, baseline: String) -> EvolutionState {
    EvolutionState {
        generation: if max_generations >= 1 {
            1u32
        } else {
            0u32
        },
        max_generations,
        baseline,
        phase: if max_generations >= 1 {
            GenerationPhase::Mutating
        } else {
            GenerationPhase::Exhausted
        },
        tree: TreeState::AtBaseline,
    }
}

/// Enter the evolution loop with the captured baseline revision.
pub fn start_evolution(max_generations: u32, baseline: String) -> (r: EvolutionState)
    ensures
        r == spec_start(max_generations, baseline),
        state_wf(r),
{
    if max_generations >= 1 {
        EvolutionState {
            generation: 1,
            max_generations,
            baseline,
            phase: GenerationPhase::Mutating,
            tree: TreeState::AtBaseline,
        }
    } else {
        EvolutionState {
            generation: 0,
            max_generations,
            baseline,
            phase: GenerationPhase::Exhausted,
            tree: TreeState::AtBaseline,
        }
    }
}

/// Is `e` an outcome the current phase can produce?
pub open spec fn spec_event_enabled(s: EvolutionState, e: GenerationEvent) -> bool {
    match e {
        GenerationEvent::MutationFinished { .. } => s.phase is Mutating,
        GenerationEvent::VerificationFinished { .. } => s.phase is Verifying,
        GenerationEvent::VerificationCrashed => s.phase is Verifying,
    }
}

/// Did this event end its generation in failure?
pub open spec fn spec_generation_failed(e: GenerationEvent) -> bool {
    match e {
        GenerationEvent::MutationFinished { success } => !success,
        GenerationEvent::VerificationFinished { passed } => !passed,
        GenerationEvent::VerificationCrashed => true,
    }
}

/// One transition of the machine together with its prescribed side effect.
pub struct StepResult {
    pub state: EvolutionState,
    /// The driver must revert the working tree to the baseline revision
    /// before acting on the new state.
    pub revert: bool,
}

/// The transition relation of the loop. A successful mutation moves to
/// verification; a passing verification succeeds and keeps the tree; every
/// failure reverts to the baseline and either advances the generation or
/// exhausts the budget.
pub open spec fn spec_step(s: EvolutionState, e: GenerationEvent) -> StepResult {
    if spec_generation_failed(e) {
        if s.generation < s.max_generations {
            StepResult {
                state: EvolutionState {
                    generation: (s.generation + 1) as u32,
                    max_generations: s.max_generations,
                    baseline: s.baseline,
                    phase: GenerationPhase::Mutating,
                    tree: TreeState::AtBaseline,
                },
                revert: true,
            }
        } else {
            StepResult {
                state: EvolutionState {
                    generation: s.generation,
                    max_generations: s.max_generations,
                    baseline: s.baseline,
                    phase: GenerationPhase::Exhausted,
                    tree: TreeState::AtBaseline,
                },
                revert: true,
            }
        }
    } else {
        match e {
            GenerationEvent::MutationFinished { .. } => StepResult {
                state: EvolutionState {
                    generation: s.generation,
                    max_generations: s.max_generations,
                    baseline: s.baseline,
                    phase: GenerationPhase::Verifying,
                    tree: TreeState::Mutated,
                },
                revert: false,
            },
            _ => StepResult {
                state: EvolutionState {
                    generation: s.generation,
                    max_generations: s.max_generations,
                    baseline: s.baseline,
                    phase: GenerationPhase::Succeeded,
                    tree: TreeState::Mutated,
                },
                revert: false,
            },
        }
    }
}

/// Advance the run by one observed outcome. Returns whether the driver must
/// revert the working tree to the baseline revision.
pub fn evolution_step(s: &mut EvolutionState, e: GenerationEvent) -> (revert: bool)
    requires
        state_wf(*old(s)),
        spec_event_enabled(*old(s), e),
    ensures
        *final(s) == spec_step(*old(s), e).state,
        revert == spec_step(*old(s), e).revert,
        state_wf(*final(s)),
        final(s).baseline == old(s).baseline,
        final(s).max_generations == old(s).max_generations,
{
    let failed = match &e {
        GenerationEvent::MutationFinished { success } => !*success,
        GenerationEvent::VerificationFinished { passed } => !*passed,
        GenerationEvent::VerificationCrashed => true,
    };
    if failed {
        s.tree = TreeState::AtBaseline;
        if s.generation < s.max_generations {
            s.generation = s.generation + 1;
            s.phase = GenerationPhase::Mutating;
        } else {
            s.phase = GenerationPhase::Exhausted;
        }
        true
    } else {
        match &e {
            GenerationEvent::MutationFinished { .. } => {
                s.phase = GenerationPhase::Verifying;
                s.tree = TreeState::Mutated;
            },
            _ => {
                s.phase = GenerationPhase::Succeeded;
                s.tree = TreeState::Mutated;
            },
        }
        false
    }
}

/// What the driver does in the current phase.
pub fn pending_action(s: &EvolutionState) -> (r: LoopAction)
    ensures
        r == (match s.phase {
            GenerationPhase::Mutating => LoopAction::RunMutation,
            GenerationPhase::Verifying => LoopAction::RunVerification,
            GenerationPhase::Succeeded => LoopAction::ReportSuccess,
            GenerationPhase::Exhausted => LoopAction::ReportExhausted,
        }),
{
    match s.phase {
        GenerationPhase::Mutating => LoopAction::RunMutation,
        GenerationPhase::Verifying => LoopAction::RunVerification,
        GenerationPhase::Succeeded => LoopAction::ReportSuccess,
        GenerationPhase::Exhausted => LoopAction::ReportExhausted,
    }
}

/// The mutation attempts a state accounts for: attempts completed or, in
/// `Verifying` and `Succeeded`, just made.
pub open spec fn spec_attempts(s: EvolutionState) -> nat {
    match s.phase {
        GenerationPhase::Mutating => (s.generation - 1) as nat,
        GenerationPhase::Verifying => s.generation as nat,
        GenerationPhase::Succeeded => s.generation as nat,
        GenerationPhase::Exhausted => s.max_generations as nat,
    }
}

/// One step preserves the invariant, never changes the baseline or the
/// budget, counts one mutation attempt exactly on a mutation outcome, and
/// prescribes a revert exactly when the generation failed; every revert
/// leaves the tree at the baseline.
pub proof fn lemma_step(s: EvolutionState, e: GenerationEvent)
    requires
        state_wf(s),
        spec_event_enabled(s, e),
    ensures
        state_wf(spec_step(s, e).state),
        spec_step(s, e).state.baseline == s.baseline,
        spec_step(s, e).state.max_generations == s.max_generations,
        spec_attempts(spec_step(s, e).state) == spec_attempts(s) + (match e {
            GenerationEvent::MutationFinished { .. } => 1nat,
            _ => 0nat,
        }),
        spec_attempts(spec_step(s, e).state) <= s.max_generations,
        spec_step(s, e).revert == spec_generation_failed(e),
        spec_step(s, e).revert ==> spec_step(s, e).state.tree is AtBaseline,
{
}

/// After any failed generation the machine prescribes a revert, the revert
/// targets the run's original baseline revision, and the tree is recorded
/// as restored to the baseline before anything further runs.
pub proof fn lemma_failed_generation_reverts(s: EvolutionState, e: GenerationEvent)
    requires
        state_wf(s),
        spec_event_enabled(s, e),
        spec_generation_failed(e),
    ensures
        spec_step(s, e).revert,
        spec_step(s, e).state.tree is AtBaseline,
        spec_step(s, e).state.baseline == s.baseline,
        spec_step(s, e).state.phase is Mutating || spec_step(s, e).state.phase is Exhausted,
{
}

/// A passing verification ends the run at once: the machine moves to
/// `Succeeded` without a revert, the passing tree is left intact, and no
/// further event is enabled, so no later generation is ever attempted.
pub proof fn lemma_pass_terminates(s: EvolutionState)
    requires
        state_wf(s),
        s.phase is Verifying,
    ensures
        spec_step(s, GenerationEvent::VerificationFinished { passed: true }).state.phase
            is Succeeded,
        !spec_step(s, GenerationEvent::VerificationFinished { passed: true }).revert,
        spec_step(s, GenerationEvent::VerificationFinished { passed: true }).state.tree
            is Mutated,
        forall|e: GenerationEvent|
            !spec_event_enabled(
                spec_step(s, GenerationEvent::VerificationFinished { passed: true }).state,
                e,
            ),
{
}

/// The state a sequence of outcomes drives the machine to.
pub open spec fn spec_run(s: EvolutionState, events: Seq<GenerationEvent>) -> EvolutionState
    decreases events.len(),
{
    if events.len() == 0 {
        s
    } else {
        spec_run(spec_step(s, events.first()).state, events.drop_first())
    }
}

/// Is every event in the sequence possible at the state it meets?
pub open spec fn spec_events_enabled(s: EvolutionState, events: Seq<GenerationEvent>) -> bool
    decreases events.len(),
{
    events.len() == 0 || (spec_event_enabled(s, events.first()) && spec_events_enabled(
        spec_step(s, events.first()).state,
        events.drop_first(),
    ))
}

/// How many mutation attempts a sequence of outcomes accounts for.
pub open spec fn spec_mutation_count(events: Seq<GenerationEvent>) -> nat
    decreases events.len(),
{
    if events.len() == 0 {
        0
    } else {
        (match events.first() {
            GenerationEvent::MutationFinished { .. } => 1nat,
            _ => 0nat,
        }) + spec_mutation_count(events.drop_first())
    }
}

/// The generation budget holds over any whole run: however the outcomes
/// fall, a run from a well-formed state makes at most `max_generations`
/// mutation attempts, the baseline revision never changes, and the
/// invariant is preserved throughout.
pub proof fn lemma_generation_budget(s: EvolutionState, events: Seq<GenerationEvent>)
    requires
        state_wf(s),
        spec_events_enabled(s, events),
    ensures
        state_wf(spec_run(s, events)),
        spec_run(s, events).baseline == s.baseline,
        spec_run(s, events).max_generations == s.max_generations,
        spec_attempts(spec_run(s, events)) == spec_attempts(s) + spec_mutation_count(events),
        spec_attempts(s) + spec_mutation_count(events) <= s.max_generations,
    decreases events.len(),
{
    if events.len() > 0 {
        lemma_step(s, events.first());
        lemma_generation_budget(spec_step(s, events.first()).state, events.drop_first());
    }
}

/// A fresh run of budget `max_generations` makes at most that many
/// mutation attempts, whatever the outcomes are.
pub proof fn lemma_run_attempts_bounded(
    max_generations: u32,
    baseline: String,
    events: Seq<GenerationEvent>,
)
    requires
        spec_events_enabled(spec_start(max_generations, baseline), events),
    ensures
        spec_mutation_count(events) <= max_generations,
{
    lemma_generation_budget(spec_start(max_generations, baseline), events);
}

/// The loop terminates immediately on the first passing verification, and
/// likewise ends at exhaustion: no event at all is enabled in a terminal
/// state, so nothing can follow a pass — no further generation is ever
/// attempted.
pub proof fn lemma_terminal_states_absorb(s: EvolutionState, events: Seq<GenerationEvent>)
    requires
        s.phase is Succeeded || s.phase is Exhausted,
        spec_events_enabled(s, events),
    ensures
        events.len() == 0,
{
}

} // verus!
