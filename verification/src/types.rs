//! The source-level type system: built-in types, refinement types and
//! composite type shapes.

use vstd::prelude::*;
use vstd::string::*;
use crate::span::Span;

verus! {

/// Built-in types.
#[derive(Debug, Clone, Copy, PartialEq, Eq, Hash, Structural)]
pub enum BuiltinType {
    /// Signed 32-bit integer.
    I32,
    /// Signed 64-bit integer.
    I64,
    /// Unsigned 32-bit integer.
    U32,
    /// Unsigned 64-bit integer.
    U64,
    /// 32-bit floating point.
    F32,
    /// 64-bit floating point.
    F64,
    /// Boolean.
    Bool,
    /// String.
    String,
    /// Byte.
    U8,
    /// Character.
    Char,
    /// Dynamic (any type).
    Dyn,
}

/// The canonical name of a built-in type.
pub open spec fn builtin_name(t: BuiltinType) -> Seq<char> {
    match t {
        BuiltinType::I32 => "i32"@,
        BuiltinType::I64 => "i64"@,
        BuiltinType::U32 => "u32"@,
        BuiltinType::U64 => "u64"@,
        BuiltinType::F32 => "f32"@,
        BuiltinType::F64 => "f64"@,
        BuiltinType::Bool => "bool"@,
        BuiltinType::String => "string"@,
        BuiltinType::U8 => "u8"@,
        BuiltinType::Char => "char"@,
        BuiltinType::Dyn => "dyn"@,
    }
}

/// The built-in type a surface name denotes, if any; a few names have
/// synonyms.
pub open spec fn builtin_from_name(s: Seq<char>) -> Option<BuiltinType> {
    if s == "i32"@ {
        Some(BuiltinType::I32)
    } else if s == "i64"@ {
        Some(BuiltinType::I64)
    } else if s == "u32"@ {
        Some(BuiltinType::U32)
    } else if s == "u64"@ {
        Some(BuiltinType::U64)
    } else if s == "f32"@ {
        Some(BuiltinType::F32)
    } else if s == "f64"@ {
        Some(BuiltinType::F64)
    } else if s == "bool"@ {
        Some(BuiltinType::Bool)
    } else if s == "string"@ || s == "str"@ {
        Some(BuiltinType::String)
    } else if s == "u8"@ || s == "byte"@ {
        Some(BuiltinType::U8)
    } else if s == "char"@ {
        Some(BuiltinType::Char)
    } else if s == "dyn"@ || s == "any"@ {
        Some(BuiltinType::Dyn)
    } else {
        None
    }
}

impl BuiltinType {
    /// The canonical name of the type.
    pub fn name(self) -> (r: &'static str)
        ensures
            r@ == builtin_name(self),
    {
        match self {
            BuiltinType::I32 => "i32",
            BuiltinType::I64 => "i64",
            BuiltinType::U32 => "u32",
            BuiltinType::U64 => "u64",
            BuiltinType::F32 => "f32",
            BuiltinType::F64 => "f64",
            BuiltinType::Bool => "bool",
            BuiltinType::String => "string",
            BuiltinType::U8 => "u8",
            BuiltinType::Char => "char",
            BuiltinType::Dyn => "dyn",
        }
    }

    /// The built-in type a surface name denotes, if any.
    pub fn from_name(s: &str) -> (r: Option<BuiltinType>)
        ensures
            r == builtin_from_name(s@),
    {
        let k = String::from_str(s);
        if k == String::from_str("i32") {
            Some(BuiltinType::I32)
        } else if k == String::from_str("i64") {
            Some(BuiltinType::I64)
        } else if k == String::from_str("u32") {
            Some(BuiltinType::U32)
        } else if k == String::from_str("u64") {
            Some(BuiltinType::U64)
        } else if k == String::from_str("f32") {
            Some(BuiltinType::F32)
        } else if k == String::from_str("f64") {
            Some(BuiltinType::F64)
        } else if k == String::from_str("bool") {
            Some(BuiltinType::Bool)
        } else if k == String::from_str("string") || k == String::from_str("str") {
            Some(BuiltinType::String)
        } else if k == String::from_str("u8") || k == String::from_str("byte") {
            Some(BuiltinType::U8)
        } else if k == String::from_str("char") {
            Some(BuiltinType::Char)
        } else if k == String::from_str("dyn") || k == String::from_str("any") {
            Some(BuiltinType::Dyn)
        } else {
            None
        }
    }

    /// Whether the type is an integer type.
    pub fn is_integer(self) -> (r: bool)
        ensures
            r == (self is I32 || self is I64 || self is U32 || self is U64 || self is U8),
    {
        match self {
            BuiltinType::I32 | BuiltinType::I64 | BuiltinType::U32 | BuiltinType::U64
                | BuiltinType::U8 => true,
            _ => false,
        }
    }

    /// Whether the type is a floating-point type.
    pub fn is_float(self) -> (r: bool)
        ensures
            r == (self is F32 || self is F64),
    {
        match self {
            BuiltinType::F32 | BuiltinType::F64 => true,
            _ => false,
        }
    }
}

/// A type, with the span it was written at.
#[derive(Debug)]
pub struct Type {
    pub kind: TypeKind,
    pub span: Span,
}

/// The shapes a type can take.
#[derive(Debug)]
pub enum TypeKind {
    /// A built-in type.
    Builtin(BuiltinType),
    /// A refinement type with a constraint.
    Refinement(Box<RefinementType>),
    /// A list type.
    List(Box<Type>),
    /// A tuple type.
    Tuple(Vec<Type>),
    /// A struct type.
    Struct(Vec<StructField>),
    /// An enum type.
    Enum(Vec<EnumVariant>),
    /// A function type.
    Fn { params: Vec<Type>, ret: Box<Type> },
    /// An optional type.
    Maybe(Box<Type>),
    /// A result type.
    Result { ok: Box<Type>, err: Box<Type> },
    /// A reference type.
    Ref(Box<Type>),
    /// An inference variable.
    Inference(u32),
    /// A type variable.
    Var(String),
    /// The never type.
    Never,
    /// The unit type.
    Unit,
}

impl Type {
    pub fn new(kind: TypeKind, span: Span) -> (t: Type)
        ensures
            t.kind == kind,
            t.span == span,
    {
        Type { kind, span }
    }

    /// A built-in type at the given span.
    pub fn builtin(ty: BuiltinType, span: Span) -> (t: Type)
        ensures
            t.kind == TypeKind::Builtin(ty),
            t.span == span,
    {
        Type::new(TypeKind::Builtin(ty), span)
    }

    /// Whether the type is numeric (integer or floating point).
    pub fn is_numeric(&self) -> (r: bool)
        ensures
            r == (self.kind == TypeKind::Builtin(BuiltinType::I32) || self.kind
                == TypeKind::Builtin(BuiltinType::I64) || self.kind == TypeKind::Builtin(
                BuiltinType::F32,
            ) || self.kind == TypeKind::Builtin(BuiltinType::F64)),
    {
        match &self.kind {
            TypeKind::Builtin(BuiltinType::I32) => true,
            TypeKind::Builtin(BuiltinType::I64) => true,
            TypeKind::Builtin(BuiltinType::F32) => true,
            TypeKind::Builtin(BuiltinType::F64) => true,
            _ => false,
        }
    }

    /// Whether the type is a signed integer.
    pub fn is_signed_int(&self) -> (r: bool)
        ensures
            r == (self.kind == TypeKind::Builtin(BuiltinType::I32) || self.kind
                == TypeKind::Builtin(BuiltinType::I64)),
    {
        match &self.kind {
            TypeKind::Builtin(BuiltinType::I32) => true,
            TypeKind::Builtin(BuiltinType::I64) => true,
            _ => false,
        }
    }
}

/// A refinement type: a base type and a constraint over a named variable.
#[derive(Debug)]
pub struct RefinementType {
    /// The base type.
    pub base: Box<Type>,
    /// The constraint expression, at solver level.
    pub constraint: String,
    /// The variable the constraint speaks of.
    pub var_name: String,
}

/// A field of a struct type.
#[derive(Debug)]
pub struct StructField {
    pub name: String,
    pub ty: Type,
    pub span: Span,
}

/// A variant of an enum type.
#[derive(Debug)]
pub struct EnumVariant {
    pub name: String,
    pub types: Vec<Type>,
    pub span: Span,
}

} // verus!
