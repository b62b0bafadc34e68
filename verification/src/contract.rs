//! Contracts and their verifier: preconditions, postconditions, invariants
//! and assertions, checked through a pluggable solver, with violations
//! reported as Debug State Objects.

use vstd::prelude::*;
use vstd::string::*;
use crate::dso::{DebugStateObject, DsoBuilder, kvs_view, spec_build};
use crate::solver::{DummySolver, Solver, VerificationResult};

verus! {

/// The kind of a contract.
#[derive(Debug, Clone, Copy, PartialEq, Eq, Hash, Structural)]
pub enum ContractKind {
    /// A precondition.
    Pre,
    /// A postcondition.
    Post,
    /// A loop invariant.
    Invariant,
    /// An inline assertion.
    Assert,
}

/// Where a contract is applied.
#[derive(Debug, Clone, PartialEq)]
pub enum ContractLocation {
    /// A function contract, with the function's name.
    Fn { name: String },
    /// A loop invariant.
    Loop,
    /// An inline assertion.
    Inline,
}

/// A contract: a kind, a constraint expression at solver level, and the
/// location it is bound to. Referenced, never mutated, by the engine.
#[derive(Debug, Clone, PartialEq)]
pub struct Contract {
    pub kind: ContractKind,
    pub constraint: String,
    pub location: ContractLocation,
}

/// A failure raised by the contract layer.
#[derive(Debug, Clone, PartialEq)]
pub enum ContractError {
    /// The solver reported an error.
    SolverError(String),
    /// The constraint expression is invalid.
    InvalidConstraint(String),
    /// No real solver backend is available.
    SolverNotAvailable,
}

/// The machine-readable code of a violated contract, chosen by its kind.
pub open spec fn violation_code(kind: ContractKind) -> Seq<char> {
    match kind {
        ContractKind::Pre => "PRECONDITION_VIOLATION"@,
        ContractKind::Post => "POSTCONDITION_VIOLATION"@,
        ContractKind::Invariant => "INVARIANT_VIOLATION"@,
        ContractKind::Assert => "ASSERTION_FAILED"@,
    }
}

/// Law: a violated contract of kind `Post` reports the code
/// `POSTCONDITION_VIOLATION`; the other kinds map to their own codes and to
/// no other.
pub proof fn lemma_violation_codes()
    ensures
        violation_code(ContractKind::Post) == "POSTCONDITION_VIOLATION"@,
        violation_code(ContractKind::Pre) == "PRECONDITION_VIOLATION"@,
        violation_code(ContractKind::Invariant) == "INVARIANT_VIOLATION"@,
        violation_code(ContractKind::Assert) == "ASSERTION_FAILED"@,
{
}

/// Orchestrates solver calls for contracts. The solver is chosen at
/// construction: [`ContractVerifier::disabled`] uses the no-op solver, and
/// [`ContractVerifier::with_solver`] any other implementation.
pub struct ContractVerifier<S: Solver> {
    solver: Option<S>,
    enabled: bool,
}

impl ContractVerifier<DummySolver> {
    /// A verifier without a real backend: every query is `Skipped`.
    pub fn new() -> (v: ContractVerifier<DummySolver>)
        ensures
            !v.spec_enabled(),
    {
        ContractVerifier::disabled()
    }

    /// A verifier without a real backend: every query is `Skipped`.
    pub fn disabled() -> (v: ContractVerifier<DummySolver>)
        ensures
            !v.spec_enabled(),
    {
        ContractVerifier { solver: Some(DummySolver), enabled: false }
    }
}

impl<S: Solver> ContractVerifier<S> {
    /// Whether verification is enabled.
    pub closed spec fn spec_enabled(&self) -> bool {
        self.enabled
    }

    /// A verifier backed by the given solver, with verification enabled.
    pub fn with_solver(solver: S) -> (v: ContractVerifier<S>)
        ensures
            v.spec_enabled(),
    {
        ContractVerifier { solver: Some(solver), enabled: true }
    }

    /// Whether verification is enabled.
    pub fn is_enabled(&self) -> (r: bool)
        ensures
            r == self.spec_enabled(),
    {
        self.enabled
    }

    /// Asks the solver about a precondition. The answer is whatever the
    /// solver gave; `Skipped` when no solver is configured.
    pub fn verify_pre(&self, contract: &Contract) -> VerificationResult {
        match &self.solver {
            Some(solver) => solver.assert_constraint(contract.constraint.as_str()),
            None => VerificationResult::Skipped,
        }
    }

    /// Asks the solver about a postcondition, with structured input values.
    /// The answer is whatever the solver gave; `Skipped` when no solver is
    /// configured.
    pub fn verify_post(&self, contract: &Contract, inputs: &Vec<(String, String)>)
        -> VerificationResult {
        match &self.solver {
            Some(solver) => solver.check_with_inputs(contract.constraint.as_str(), inputs),
            None => VerificationResult::Skipped,
        }
    }

    /// The Debug State Object reporting a violation of `contract`: status
    /// `ContractViolation`, the error code chosen by the contract's kind,
    /// the constraint text as the expected value, and the given context.
    pub fn violation_dso(&self, contract: &Contract, context: &Vec<(String, String)>) -> (d:
        DebugStateObject)
        ensures
            d@.status == "ContractViolation"@,
            d@.error_code == violation_code(contract.kind),
            d@.expected == Some(contract.constraint@),
            d@.context == kvs_view(context@),
            d@.location is None,
            d@.actual is None,
            d@.suggestion is None,
            d@.extra =~= Seq::<(Seq<char>, Seq<char>)>::empty(),
    {
        let code = match contract.kind {
            ContractKind::Pre => String::from_str("PRECONDITION_VIOLATION"),
            ContractKind::Post => String::from_str("POSTCONDITION_VIOLATION"),
            ContractKind::Invariant => String::from_str("INVARIANT_VIOLATION"),
            ContractKind::Assert => String::from_str("ASSERTION_FAILED"),
        };
        let mut ctx: Vec<(String, String)> = Vec::new();
        let n = context.len();
        let mut i: usize = 0;
        while i < n
            invariant
                0 <= i <= n,
                n == context@.len(),
                ctx@.len() == i,
                forall|j: int|
                    0 <= j < i ==> #[trigger] ctx@[j].0@ == context@[j].0@ && ctx@[j].1@
                        == context@[j].1@,
            decreases n - i,
        {
            ctx.push((context[i].0.clone(), context[i].1.clone()));
            i += 1;
        }
        proof {
            assert(kvs_view(ctx@) =~= kvs_view(context@));
        }
        DsoBuilder::new()
            .status(String::from_str("ContractViolation"))
            .error_code(code)
            .expected(contract.constraint.clone())
            .context(ctx)
            .build()
    }
}

impl Default for ContractVerifier<DummySolver> {
    fn default() -> (v: ContractVerifier<DummySolver>)
        ensures
            !v.spec_enabled(),
    {
        ContractVerifier::new()
    }
}

} // verus!
