//! Syntax-tree data at the boundary with the front end: declarations,
//! imports, exports, node kinds and source-level contracts.

use vstd::prelude::*;
use crate::span::Span;
use crate::types::Type;

verus! {

/// An import declaration.
#[derive(Debug)]
pub struct ImportDecl {
    /// Import style (hash-based, semantic or path).
    pub kind: ImportKind,
    /// Local binding name.
    pub name: String,
    /// Optional alias.
    pub alias: Option<String>,
    pub span: Span,
}

/// Import style variants.
#[derive(Debug)]
pub enum ImportKind {
    /// A content-addressed import.
    Hash { algorithm: String, hash: String },
    /// A semantic import, found by a query.
    Semantic { query: String },
    /// A path import.
    Path { path: String },
}

/// An export declaration.
#[derive(Debug)]
pub struct ExportDecl {
    /// Name being exported.
    pub name: String,
    /// Optional export alias.
    pub alias: Option<String>,
    pub span: Span,
}

/// Node kind identifiers.
#[derive(Debug, Clone, Copy, PartialEq, Eq, Hash, Structural)]
pub enum NodeKind {
    // Declarations
    FnDecl,
    StructDecl,
    EnumDecl,
    TypeAlias,
    ConstDecl,
    LetDecl,
    // Statements
    ExprStmt,
    Assign,
    Block,
    If,
    Loop,
    While,
    For,
    Break,
    Continue,
    Return,
    // Expressions
    Literal,
    Var,
    Unary,
    Binary,
    Call,
    Index,
    Field,
    ArrayExpr,
    TupleExpr,
    StructExpr,
    Lambda,
    IfExpr,
    BlockExpr,
    // Types
    Builtin,
    Refinement,
    ArrayType,
    TupleType,
    StructType,
    EnumType,
    FnType,
}

/// A parameter of a function or lambda.
#[derive(Debug)]
pub struct Param {
    pub name: String,
    pub ty: Option<Type>,
    pub span: Span,
}

/// The kind of a source-level contract annotation.
#[derive(Debug, Clone, Copy, PartialEq, Eq, Hash, Structural)]
pub enum ContractKind {
    /// A precondition.
    Pre,
    /// A postcondition.
    Post,
    /// A loop invariant.
    Invariant,
    /// An inline assertion.
    Assert,
}

/// Where a source-level contract is applied.
#[derive(Debug)]
pub enum ContractLocation {
    /// A function contract, with the function's name.
    Fn { name: String },
    /// A loop invariant.
    Loop,
    /// An inline assertion.
    Inline,
}

/// A struct declaration.
#[derive(Debug)]
pub struct StructDecl {
    pub name: String,
    pub params: Vec<String>,
    pub fields: Vec<StructField>,
    pub span: Span,
}

/// A field of a struct declaration.
#[derive(Debug)]
pub struct StructField {
    pub name: String,
    pub ty: Type,
    pub span: Span,
}

/// An enum declaration.
#[derive(Debug)]
pub struct EnumDecl {
    pub name: String,
    pub params: Vec<String>,
    pub variants: Vec<EnumVariant>,
    pub span: Span,
}

/// A variant of an enum declaration.
#[derive(Debug)]
pub struct EnumVariant {
    pub name: String,
    pub types: Vec<Type>,
    pub span: Span,
}

} // verus!
