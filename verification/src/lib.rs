//! Verified core of an evolve-by-mutation-and-test orchestrator.
//!
//! The library holds the decision logic of the evolution loop: settings
//! resolution, project-type inference, bootstrap planning, the baseline and
//! rollback command plans for the version-control tool, prompt construction
//! for the mutation agent, fitness-command planning, and the generation state
//! machine itself. All process spawning and filesystem access stays outside,
//! in a thin driver that performs the planned actions and feeds the observed
//! outcomes back in.

pub mod bootstrap;
pub mod engine;
pub mod errors;
pub mod fib;
pub mod fitness;
pub mod mutate;
pub mod project;
pub mod prompt;
pub mod settings;
pub mod text;
pub mod vcs;
