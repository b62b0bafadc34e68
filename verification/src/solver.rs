//! The solver abstraction: a pluggable oracle answering satisfiability
//! queries over constraint expressions.

use vstd::prelude::*;

verus! {

/// The answer of a solver to a satisfiability query.
#[derive(Debug, Clone, Copy, PartialEq, Eq, Structural)]
pub enum VerificationResult {
    /// The constraint is satisfiable.
    Sat,
    /// The constraint is unsatisfiable: a proof of violation.
    Unsat,
    /// The solver could not determine an answer; never to be promoted to a
    /// pass.
    Unknown,
    /// Verification was skipped because no real solver is configured.
    Skipped,
}

/// An oracle deciding satisfiability of constraint expressions, with scopes
/// for incremental use. Implementations are chosen at construction time of a
/// [`crate::contract::ContractVerifier`].
pub trait Solver {
    /// Asserts a constraint and reports its satisfiability.
    fn assert_constraint(&self, constraint: &str) -> VerificationResult;

    /// Checks a constraint against structured input values.
    fn check_with_inputs(&self, constraint: &str, inputs: &Vec<(String, String)>)
        -> VerificationResult;

    /// Opens a new scope.
    fn push_scope(&self);

    /// Closes the current scope.
    fn pop_scope(&self);

    /// Resets the solver state.
    fn reset(&self);
}

/// A failure raised by a solver backend.
#[derive(Debug, Clone, PartialEq)]
pub enum SolverError {
    /// The backend reported an error.
    Backend(String),
    /// The constraint expression could not be parsed.
    Parse(String),
    /// The solver timed out.
    Timeout,
}

/// Result type for solver operations.
pub type SolverResult<T> = Result<T, SolverError>;

/// The no-op solver: answers `Skipped` to every query, so that verification
/// is visibly disabled rather than silently passing.
#[derive(Debug, Clone, Copy, PartialEq, Eq, Structural)]
pub struct DummySolver;

impl Solver for DummySolver {
    fn assert_constraint(&self, constraint: &str) -> (r: VerificationResult)
        ensures
            r == VerificationResult::Skipped,
    {
        let _ = constraint;
        VerificationResult::Skipped
    }

    fn check_with_inputs(
        &self,
        constraint: &str,
        inputs: &Vec<(String, String)>,
    ) -> (r: VerificationResult)
        ensures
            r == VerificationResult::Skipped,
    {
        let _ = constraint;
        let _ = inputs;
        VerificationResult::Skipped
    }

    fn push_scope(&self) {
    }

    fn pop_scope(&self) {
    }

    fn reset(&self) {
    }
}

/// The placeholder backend for a real solver: until one is wired in it
/// answers `Unknown`, which callers must treat as "could not confirm".
#[derive(Debug, Clone, Copy, PartialEq, Eq, Structural)]
pub struct Z3Solver {
}

impl Z3Solver {
    /// A fresh backend.
    pub fn new() -> (s: Z3Solver) {
        Z3Solver {  }
    }
}

impl Solver for Z3Solver {
    fn assert_constraint(&self, constraint: &str) -> (r: VerificationResult)
        ensures
            r == VerificationResult::Unknown,
    {
        let _ = constraint;
        VerificationResult::Unknown
    }

    fn check_with_inputs(
        &self,
        constraint: &str,
        inputs: &Vec<(String, String)>,
    ) -> (r: VerificationResult)
        ensures
            r == VerificationResult::Unknown,
    {
        let _ = constraint;
        let _ = inputs;
        VerificationResult::Unknown
    }

    fn push_scope(&self) {
    }

    fn pop_scope(&self) {
    }

    fn reset(&self) {
    }
}

} // verus!
