//! Helpers and data of the static type checker's boundary: configuration,
//! failure taxonomy, bindings and type constructors.

use vstd::prelude::*;
use crate::ids::VarId;
use crate::span::Span;
use crate::types::{Type, TypeKind};

verus! {

/// Type checker configuration.
#[derive(Debug, Clone, Copy)]
pub struct TypeCheckerConfig {
    /// Enable refinement-type checking.
    pub refinements: bool,
    /// Enable type inference.
    pub inference: bool,
}

impl TypeCheckerConfig {
    /// The default configuration: refinements and inference enabled.
    pub fn standard() -> (c: TypeCheckerConfig)
        ensures
            c.refinements,
            c.inference,
    {
        TypeCheckerConfig { refinements: true, inference: true }
    }
}

impl Default for TypeCheckerConfig {
    fn default() -> (c: TypeCheckerConfig)
        ensures
            c.refinements,
            c.inference,
    {
        TypeCheckerConfig::standard()
    }
}

/// A failure raised by the type checker.
#[derive(Debug)]
pub enum TypeError {
    /// The found type does not match the expected one.
    Mismatch { expected: String, found: String },
    /// A variable was declared without an initializer.
    Uninitialized { name: String },
    /// A variable is not in scope.
    UndefinedVar { name: String },
    /// A type name is not in scope.
    UndefinedType { name: String },
    /// A function name is not in scope.
    UndefinedFn { name: String },
    /// A call passes the wrong number of arguments.
    ArgCount { expected: usize, found: usize },
    /// No type could be inferred.
    CannotInfer,
    /// A refinement constraint does not hold.
    RefinementViolation { constraint: String },
    /// Type definitions depend on each other cyclically.
    CyclicType,
}

/// Result type for the type checker.
pub type TResult<T> = Result<T, TypeError>;

/// A binding in the type environment.
#[derive(Debug)]
pub struct Binding {
    pub name: String,
    pub ty: Type,
    pub id: Option<VarId>,
}

/// The unit type at the given span.
pub fn unit_type(span: Span) -> (t: Type)
    ensures
        t.kind == TypeKind::Unit,
        t.span == span,
{
    Type::new(TypeKind::Unit, span)
}

/// A fresh unknown type at the given span.
pub fn unknown_type(span: Span) -> (t: Type)
    ensures
        t.kind == TypeKind::Inference(0u32),
        t.span == span,
{
    Type::new(TypeKind::Inference(0), span)
}

} // verus!
