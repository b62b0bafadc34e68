//! Tests of the report protocol (DSO), the contract verifier and the
//! solver abstraction.

use synton_core::contract::{Contract, ContractKind, ContractLocation, ContractVerifier};
use synton_core::dso::{DebugStateObject, DsoBuilder};
use synton_core::solver::{DummySolver, Solver, VerificationResult, Z3Solver};

/// A test oracle that proves every constraint violated.
struct UnsatSolver;

impl Solver for UnsatSolver {
    fn assert_constraint(&self, _constraint: &str) -> VerificationResult {
        VerificationResult::Unsat
    }

    fn check_with_inputs(
        &self,
        _constraint: &str,
        _inputs: &Vec<(String, String)>,
    ) -> VerificationResult {
        VerificationResult::Unsat
    }

    fn push_scope(&self) {}

    fn pop_scope(&self) {}

    fn reset(&self) {}
}

fn contract(kind: ContractKind, constraint: &str) -> Contract {
    Contract {
        kind,
        constraint: constraint.to_string(),
        location: ContractLocation::Fn {
            name: "f".to_string(),
        },
    }
}

#[test]
fn builder_defaults() {
    let d = DsoBuilder::new().build();
    assert_eq!(d.status, "Unknown");
    assert_eq!(d.error_code, "UNKNOWN");
    assert!(d.location.is_none());
    assert!(d.context.is_empty());
    assert!(d.expected.is_none());
    assert!(d.actual.is_none());
    assert!(d.suggestion.is_none());
    assert!(d.extra.is_empty());
}

#[test]
fn builder_sets_every_field() {
    let d = DsoBuilder::new()
        .status("Failed".to_string())
        .error_code("DIVISION_BY_ZERO".to_string())
        .location("node_id:2a".to_string())
        .context(vec![("x".to_string(), "3".to_string())])
        .expected("nonzero".to_string())
        .actual("0".to_string())
        .suggestion("guard the divisor".to_string())
        .extra("phase".to_string(), "runtime".to_string())
        .build();
    assert_eq!(d.status, "Failed");
    assert_eq!(d.error_code, "DIVISION_BY_ZERO");
    assert_eq!(d.location.as_deref(), Some("node_id:2a"));
    assert_eq!(d.context, vec![("x".to_string(), "3".to_string())]);
    assert_eq!(d.expected.as_deref(), Some("nonzero"));
    assert_eq!(d.actual.as_deref(), Some("0"));
    assert_eq!(d.suggestion.as_deref(), Some("guard the divisor"));
    assert_eq!(d.extra, vec![("phase".to_string(), "runtime".to_string())]);
}

// The textual form round-trips, with an empty extension map.
#[test]
fn text_round_trip_minimal() {
    let d = DebugStateObject::new("Unknown".to_string(), "UNKNOWN".to_string());
    let text = d.to_text();
    let back = DebugStateObject::from_text(text.as_str()).unwrap();
    assert_eq!(back, d);
}

// The textual form round-trips with every field populated, including a
// context and extension map whose values hold separators and newlines.
#[test]
fn text_round_trip_full() {
    let d = DsoBuilder::new()
        .status("ContractViolation".to_string())
        .error_code("POSTCONDITION_VIOLATION".to_string())
        .location("node_id:7f".to_string())
        .context(vec![
            ("x".to_string(), "1 2\n3".to_string()),
            ("x".to_string(), "".to_string()),
            ("weird key \n".to_string(), "v".to_string()),
        ])
        .expected("$ret >= n".to_string())
        .actual("-1".to_string())
        .suggestion("clamp the result".to_string())
        .extra("phase".to_string(), "verify".to_string())
        .extra("attempt 2".to_string(), "7 8".to_string())
        .build();
    let text = d.to_text();
    let back = DebugStateObject::from_text(text.as_str()).unwrap();
    assert_eq!(back, d);
}

#[test]
fn from_text_reads_unknown_keys_into_extra() {
    // A record sequence with an unknown top-level key.
    let d = DsoBuilder::new()
        .extra("custom".to_string(), "value".to_string())
        .build();
    let text = d.to_text();
    let back = DebugStateObject::from_text(text.as_str()).unwrap();
    assert_eq!(
        back.extra,
        vec![("custom".to_string(), "value".to_string())]
    );
}

#[test]
fn from_text_rejects_malformed_text() {
    assert!(DebugStateObject::from_text("garbage").is_none());
    assert!(DebugStateObject::from_text("6 status").is_none());
    assert!(DebugStateObject::from_text("x 1 a").is_none());
    // A truncated record.
    let d = DebugStateObject::new("S".to_string(), "C".to_string());
    let mut text = d.to_text();
    text.pop();
    assert!(DebugStateObject::from_text(text.as_str()).is_none());
}

// A contract of kind `Post` whose solver call returns `Unsat` produces a
// DSO with the `POSTCONDITION_VIOLATION` code and the constraint as the
// expected value.
#[test]
fn post_violation_report() {
    let v = ContractVerifier::with_solver(UnsatSolver);
    assert!(v.is_enabled());
    let c = contract(ContractKind::Post, "$ret >= n");
    let inputs = vec![("n".to_string(), "3".to_string())];
    assert_eq!(v.verify_post(&c, &inputs), VerificationResult::Unsat);
    let ctx = vec![("n".to_string(), "3".to_string())];
    let d = v.violation_dso(&c, &ctx);
    assert_eq!(d.status, "ContractViolation");
    assert_eq!(d.error_code, "POSTCONDITION_VIOLATION");
    assert_eq!(d.expected.as_deref(), Some("$ret >= n"));
    assert_eq!(d.context, ctx);
    assert!(d.actual.is_none());
    assert!(d.location.is_none());
}

#[test]
fn violation_codes_by_kind() {
    let v = ContractVerifier::with_solver(UnsatSolver);
    let ctx = Vec::new();
    assert_eq!(
        v.violation_dso(&contract(ContractKind::Pre, "n > 0"), &ctx)
            .error_code,
        "PRECONDITION_VIOLATION"
    );
    assert_eq!(
        v.violation_dso(&contract(ContractKind::Invariant, "len > 0"), &ctx)
            .error_code,
        "INVARIANT_VIOLATION"
    );
    assert_eq!(
        v.violation_dso(&contract(ContractKind::Assert, "x == y"), &ctx)
            .error_code,
        "ASSERTION_FAILED"
    );
}

// The no-op solver answers `Skipped`, never a silent pass.
#[test]
fn dummy_solver_skips() {
    let v = ContractVerifier::new();
    assert!(!v.is_enabled());
    let c = contract(ContractKind::Pre, "n > 0");
    assert_eq!(v.verify_pre(&c), VerificationResult::Skipped);
    assert_eq!(
        v.verify_post(&c, &Vec::new()),
        VerificationResult::Skipped
    );
    let d = ContractVerifier::disabled();
    assert!(!d.is_enabled());
    assert_eq!(DummySolver.assert_constraint("x"), VerificationResult::Skipped);
}

// The placeholder backend answers `Unknown`: could not confirm.
#[test]
fn backend_stub_answers_unknown() {
    let s = Z3Solver::new();
    assert_eq!(s.assert_constraint("x > 0"), VerificationResult::Unknown);
    assert_eq!(
        s.check_with_inputs("x > 0", &Vec::new()),
        VerificationResult::Unknown
    );
    s.push_scope();
    s.pop_scope();
    s.reset();
    let v = ContractVerifier::with_solver(Z3Solver::new());
    assert!(v.is_enabled());
    assert_eq!(
        v.verify_pre(&contract(ContractKind::Pre, "q")),
        VerificationResult::Unknown
    );
}

// The textual form is readable on its own: length-prefixed records, with
// lengths counted in characters.
#[test]
fn from_text_reads_hand_written_records() {
    let d = DebugStateObject::from_text("6 status 2 OK\n").unwrap();
    assert_eq!(d.status, "OK");
    assert_eq!(d.error_code, "UNKNOWN");
    let accented = DebugStateObject::from_text("6 status 1 \u{e9}\n").unwrap();
    assert_eq!(accented.status, "\u{e9}");
    let unknown = DebugStateObject::from_text("3 who 2 me\n").unwrap();
    assert_eq!(unknown.extra, vec![("who".to_string(), "me".to_string())]);
}

#[test]
fn to_text_writes_length_prefixed_records() {
    let d = DebugStateObject::new("OK".to_string(), "NONE".to_string());
    let text = d.to_text();
    assert!(text.starts_with("6 status 2 OK\n10 error_code 4 NONE\n"));
}

#[test]
fn dso_new_sets_status_and_code() {
    let d = DebugStateObject::new("Failed".to_string(), "RUNTIME_ERROR".to_string());
    assert_eq!(d.status, "Failed");
    assert_eq!(d.error_code, "RUNTIME_ERROR");
    assert!(d.context.is_empty());
}
