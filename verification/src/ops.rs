//! Source-level operators and their surface syntax.

use vstd::prelude::*;

verus! {

/// Unary operators.
#[derive(Debug, Clone, Copy, PartialEq, Eq, Hash, Structural)]
pub enum UnaryOp {
    Not,
    Neg,
    BitNot,
    Ref,
    Deref,
}

/// The surface token of a unary operator.
pub open spec fn unary_token(op: UnaryOp) -> Seq<char> {
    match op {
        UnaryOp::Not => "!"@,
        UnaryOp::Neg => "-"@,
        UnaryOp::BitNot => "~"@,
        UnaryOp::Ref => "&"@,
        UnaryOp::Deref => "*"@,
    }
}

impl UnaryOp {
    /// The operator as written in source code.
    pub fn token(self) -> (r: &'static str)
        ensures
            r@ == unary_token(self),
    {
        match self {
            UnaryOp::Not => "!",
            UnaryOp::Neg => "-",
            UnaryOp::BitNot => "~",
            UnaryOp::Ref => "&",
            UnaryOp::Deref => "*",
        }
    }
}

/// Binary operators.
#[derive(Debug, Clone, Copy, PartialEq, Eq, Hash, Structural)]
pub enum BinaryOp {
    Add,
    Sub,
    Mul,
    Div,
    Mod,
    Pow,
    BitAnd,
    BitOr,
    BitXor,
    Shl,
    Shr,
    And,
    Or,
}

/// The surface token of a binary operator.
pub open spec fn binary_token(op: BinaryOp) -> Seq<char> {
    match op {
        BinaryOp::Add => "+"@,
        BinaryOp::Sub => "-"@,
        BinaryOp::Mul => "*"@,
        BinaryOp::Div => "/"@,
        BinaryOp::Mod => "%"@,
        BinaryOp::Pow => "**"@,
        BinaryOp::BitAnd => "&"@,
        BinaryOp::BitOr => "|"@,
        BinaryOp::BitXor => "^"@,
        BinaryOp::Shl => "<<"@,
        BinaryOp::Shr => ">>"@,
        BinaryOp::And => "&&"@,
        BinaryOp::Or => "||"@,
    }
}

/// The binding strength of a binary operator: higher binds tighter.
pub open spec fn binary_precedence(op: BinaryOp) -> u8 {
    match op {
        BinaryOp::Or => 1,
        BinaryOp::And => 2,
        BinaryOp::Add | BinaryOp::Sub => 5,
        BinaryOp::Mul | BinaryOp::Div | BinaryOp::Mod => 6,
        BinaryOp::Pow => 7,
        BinaryOp::Shl | BinaryOp::Shr => 8,
        BinaryOp::BitAnd => 9,
        BinaryOp::BitXor => 10,
        BinaryOp::BitOr => 11,
    }
}

impl BinaryOp {
    /// The operator as written in source code.
    pub fn token(self) -> (r: &'static str)
        ensures
            r@ == binary_token(self),
    {
        match self {
            BinaryOp::Add => "+",
            BinaryOp::Sub => "-",
            BinaryOp::Mul => "*",
            BinaryOp::Div => "/",
            BinaryOp::Mod => "%",
            BinaryOp::Pow => "**",
            BinaryOp::BitAnd => "&",
            BinaryOp::BitOr => "|",
            BinaryOp::BitXor => "^",
            BinaryOp::Shl => "<<",
            BinaryOp::Shr => ">>",
            BinaryOp::And => "&&",
            BinaryOp::Or => "||",
        }
    }

    /// The binding strength: higher binds tighter.
    pub fn precedence(self) -> (r: u8)
        ensures
            r == binary_precedence(self),
    {
        match self {
            BinaryOp::Or => 1,
            BinaryOp::And => 2,
            BinaryOp::Add | BinaryOp::Sub => 5,
            BinaryOp::Mul | BinaryOp::Div | BinaryOp::Mod => 6,
            BinaryOp::Pow => 7,
            BinaryOp::Shl | BinaryOp::Shr => 8,
            BinaryOp::BitAnd => 9,
            BinaryOp::BitXor => 10,
            BinaryOp::BitOr => 11,
        }
    }
}

/// Comparison operators.
#[derive(Debug, Clone, Copy, PartialEq, Eq, Hash, Structural)]
pub enum CompareOp {
    Eq,
    NotEq,
    Less,
    LessEq,
    Greater,
    GreaterEq,
}

/// The surface token of a comparison operator.
pub open spec fn compare_token(op: CompareOp) -> Seq<char> {
    match op {
        CompareOp::Eq => "=="@,
        CompareOp::NotEq => "!="@,
        CompareOp::Less => "<"@,
        CompareOp::LessEq => "<="@,
        CompareOp::Greater => ">"@,
        CompareOp::GreaterEq => ">="@,
    }
}

impl CompareOp {
    /// The operator as written in source code.
    pub fn token(self) -> (r: &'static str)
        ensures
            r@ == compare_token(self),
    {
        match self {
            CompareOp::Eq => "==",
            CompareOp::NotEq => "!=",
            CompareOp::Less => "<",
            CompareOp::LessEq => "<=",
            CompareOp::Greater => ">",
            CompareOp::GreaterEq => ">=",
        }
    }
}

/// Any operator.
#[derive(Debug, Clone, Copy, PartialEq, Eq, Structural)]
pub enum Op {
    Unary(UnaryOp),
    Binary(BinaryOp),
    Compare(CompareOp),
}

} // verus!
