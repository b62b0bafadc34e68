//! Tests of the front-end boundary kept by the core: identifiers, spans,
//! operators, types, tokens, the builder and code generation utilities.

use synton_core::ast_builder::AstBuilder;
use synton_core::codegen::{CodeBuffer, CodegenConfig, IndentStyle};
use synton_core::decompiler::{Decompiler, PythonCodegen, TargetLang};
use synton_core::ids::{FnId, ModuleId, NodeId, VarId};
use synton_core::ops::{BinaryOp, CompareOp, UnaryOp};
use synton_core::parser::{parse_type, ParserConfig, SyntonParser};
use synton_core::span::{Position, Span};
use synton_core::token::{LexError, Token};
use synton_core::typeck::{unit_type, unknown_type, TypeCheckerConfig};
use synton_core::types::{BuiltinType, Type, TypeKind};

#[test]
fn node_ids_render_in_hex() {
    assert_eq!(NodeId::new(255).to_hex(), "ff");
    assert_eq!(NodeId::new(0).to_hex(), "0");
    assert_eq!(NodeId::new(0xdead_beef).to_hex(), "deadbeef");
    assert_eq!(NodeId::new(42).as_u32(), 42);
    assert_eq!(VarId::new(1), VarId(1));
    assert_eq!(FnId::new(2), FnId(2));
    let m = ModuleId::new("abc123".to_string());
    assert_eq!(m.as_str(), "abc123");
}

#[test]
fn spans_merge_and_measure() {
    let a = Position::new(1, 1, 0);
    let b = Position::new(1, 5, 4);
    let c = Position::new(2, 1, 10);
    assert_eq!(Position::start(), a);
    let s1 = Span::new(a, b);
    let s2 = Span::new(b, c);
    let merged = s1.merge(s2);
    assert_eq!(merged.start, a);
    assert_eq!(merged.end, c);
    assert_eq!(merged.range(), (0, 10));
    assert!(!merged.is_empty());
    assert!(Span::single(b).is_empty());
    assert!(a.precedes(&b));
    assert!(!b.precedes(&a));
}

#[test]
fn operator_tokens_and_precedence() {
    assert_eq!(UnaryOp::Not.token(), "!");
    assert_eq!(UnaryOp::Deref.token(), "*");
    assert_eq!(BinaryOp::Pow.token(), "**");
    assert_eq!(BinaryOp::Shl.token(), "<<");
    assert_eq!(CompareOp::LessEq.token(), "<=");
    assert_eq!(CompareOp::NotEq.token(), "!=");
    assert_eq!(BinaryOp::Or.precedence(), 1);
    assert_eq!(BinaryOp::And.precedence(), 2);
    assert_eq!(BinaryOp::Add.precedence(), 5);
    assert_eq!(BinaryOp::Mul.precedence(), 6);
    assert_eq!(BinaryOp::Pow.precedence(), 7);
    assert_eq!(BinaryOp::BitOr.precedence(), 11);
    assert!(BinaryOp::Mul.precedence() > BinaryOp::Add.precedence());
}

#[test]
fn builtin_types_by_name() {
    assert_eq!(BuiltinType::from_name("i32"), Some(BuiltinType::I32));
    assert_eq!(BuiltinType::from_name("str"), Some(BuiltinType::String));
    assert_eq!(BuiltinType::from_name("byte"), Some(BuiltinType::U8));
    assert_eq!(BuiltinType::from_name("any"), Some(BuiltinType::Dyn));
    assert_eq!(BuiltinType::from_name("quux"), None);
    assert_eq!(BuiltinType::I64.name(), "i64");
    assert!(BuiltinType::U8.is_integer());
    assert!(!BuiltinType::F32.is_integer());
    assert!(BuiltinType::F64.is_float());
    assert!(!BuiltinType::Bool.is_float());
}

#[test]
fn type_shape_queries() {
    let span = Span::single(Position::start());
    let t = Type::builtin(BuiltinType::I32, span);
    assert!(t.is_numeric());
    assert!(t.is_signed_int());
    let f = Type::builtin(BuiltinType::F64, span);
    assert!(f.is_numeric());
    assert!(!f.is_signed_int());
    let b = Type::builtin(BuiltinType::Bool, span);
    assert!(!b.is_numeric());
    let u = Type::new(TypeKind::Unit, span);
    assert!(!u.is_numeric());
}

#[test]
fn token_classification() {
    assert!(Token::KwFn.is_keyword());
    assert!(Token::KwMod.is_keyword());
    assert!(!Token::KwI32.is_keyword());
    assert!(Token::KwI32.is_type_keyword());
    assert!(Token::KwResult.is_type_keyword());
    assert!(!Token::Plus.is_type_keyword());
    assert!(Token::Integer(3).is_literal());
    assert!(Token::True.is_literal());
    assert!(!Token::Identifier("x".to_string()).is_literal());
    assert!(Token::Identifier("x".to_string()).can_start_expr());
    assert!(Token::Minus.can_start_expr());
    assert!(Token::LParen.can_start_expr());
    assert!(!Token::RParen.can_start_expr());
}

#[test]
fn lex_error_spans() {
    let e = LexError::InvalidToken {
        text: "#".to_string(),
        offset: 4,
    };
    assert_eq!(e.span(), (4, 5));
    let u = LexError::UnterminatedString { start: 9 };
    assert_eq!(u.span(), (9, 10));
    let esc = LexError::InvalidEscape {
        seq: "q".to_string(),
        offset: 2,
    };
    assert_eq!(esc.span(), (2, 4));
    assert_eq!(LexError::UnexpectedEof.span(), (0, 0));
    assert_eq!(LexError::Other("m".to_string()).span(), (0, 0));
}

#[test]
fn builder_positions_follow_lines() {
    let mut b = AstBuilder::new("ab\ncd\n".to_string());
    let p0 = b.position(0);
    assert_eq!((p0.line, p0.column, p0.offset), (1, 1, 0));
    let p4 = b.position(4);
    assert_eq!((p4.line, p4.column, p4.offset), (2, 2, 4));
    let p3 = b.position(3);
    assert_eq!((p3.line, p3.column, p3.offset), (2, 1, 3));
    let s = b.span(0, 4);
    assert_eq!(s.start.offset, 0);
    assert_eq!(s.end.offset, 4);
    let sa = b.span_at(3);
    assert_eq!(sa.start, sa.end);
    assert_eq!(b.fresh_node_id(), NodeId(0));
    assert_eq!(b.fresh_node_id(), NodeId(1));
    assert_eq!(b.fresh_node_id(), NodeId(2));
}

#[test]
fn builder_counts_multibyte_offsets() {
    // The accented character takes two bytes, so the second line starts at
    // byte offset three.
    let b = AstBuilder::new("é\nx".to_string());
    let p = b.position(3);
    assert_eq!((p.line, p.column), (2, 1));
}

#[test]
fn parser_surface() {
    let p = SyntonParser::new();
    let t = p.parse_type("i64").unwrap();
    assert!(matches!(t.kind, TypeKind::Builtin(BuiltinType::I32)));
    let t2 = parse_type("whatever").unwrap();
    assert!(matches!(t2.kind, TypeKind::Builtin(BuiltinType::I32)));
    let cfg = ParserConfig::standard();
    assert!(cfg.recovery);
    assert_eq!(cfg.max_depth, 256);
    let _custom = SyntonParser::with_config(ParserConfig {
        recovery: false,
        max_depth: 8,
    });
}

#[test]
fn typeck_helpers() {
    let span = Span::single(Position::start());
    assert!(matches!(unit_type(span).kind, TypeKind::Unit));
    assert!(matches!(unknown_type(span).kind, TypeKind::Inference(0)));
    let cfg = TypeCheckerConfig::standard();
    assert!(cfg.refinements);
    assert!(cfg.inference);
}

#[test]
fn indentation_and_code_buffer() {
    assert_eq!(IndentStyle::Spaces(4).to_string(2), "        ");
    assert_eq!(IndentStyle::Spaces(4).to_string(0), "");
    assert_eq!(IndentStyle::Spaces(0).to_string(9), "");
    assert_eq!(IndentStyle::Tabs.to_string(3), "\t\t\t");
    let mut buf = CodeBuffer::new(IndentStyle::Spaces(2));
    buf.push_line("fn main():");
    buf.indent();
    buf.push_line("pass");
    buf.dedent();
    buf.dedent();
    buf.push("done");
    assert_eq!(buf.finish(), "fn main():\n  pass\ndone");
}

#[test]
fn hex_covers_the_full_width() {
    assert_eq!(NodeId::new(u32::MAX).to_hex(), "ffffffff");
    assert_eq!(NodeId::new(16).to_hex(), "10");
}

#[test]
fn decompiler_surface() {
    assert_eq!(TargetLang::from_name("PYTHON"), Some(TargetLang::Python));
    assert_eq!(TargetLang::from_name("py"), Some(TargetLang::Python));
    assert_eq!(TargetLang::from_name("ts"), Some(TargetLang::TypeScript));
    assert_eq!(TargetLang::from_name("Rust"), Some(TargetLang::Rust));
    assert_eq!(TargetLang::from_name("c"), Some(TargetLang::C));
    assert_eq!(TargetLang::from_name("cobol"), None);
    assert_eq!(TargetLang::Python.extension(), "py");
    assert_eq!(TargetLang::JavaScript.extension(), "ts");
    assert_eq!(TargetLang::TypeScript.name(), "TypeScript");
    let d = Decompiler::new(TargetLang::Python).with_indent(IndentStyle::Tabs);
    let _ = d;
    let g = PythonCodegen::new(CodegenConfig::standard());
    assert!(matches!(g.config().indent, IndentStyle::Spaces(4)));
}
