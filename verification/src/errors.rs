use vstd::prelude::*;

verus! {

/// The error taxonomy of a run.
///
/// `ConfigError`, `BootstrapError` and `VcsError` are fatal to the run;
/// `AgentError` and `VerifyError` are recovered per generation by reverting
/// to the baseline and continuing.
#[derive(Clone, Copy, Debug, PartialEq, Eq, Structural)]
pub enum EvolveError {
    /// Missing or malformed configuration.
    ConfigError,
    /// The project initializer failed; the project is unusable without it.
    BootstrapError,
    /// An unexpected version-control command failure.
    VcsError,
    /// The mutation agent failed or could not be spawned.
    AgentError,
    /// The fitness command could not be run.
    VerifyError,
}

} // verus!
