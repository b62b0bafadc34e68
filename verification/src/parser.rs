//! The parser's boundary: configuration, failure taxonomy and the parts of
//! its surface that the core keeps. Parsing itself belongs to the excluded
//! front end.

use vstd::prelude::*;
use crate::span::{Position, Span};
use crate::token::LexError;
use crate::types::{BuiltinType, Type, TypeKind};

verus! {

/// Parser configuration.
#[derive(Debug, Clone, Copy)]
pub struct ParserConfig {
    /// Enable error recovery.
    pub recovery: bool,
    /// Maximum recursion depth.
    pub max_depth: usize,
}

impl ParserConfig {
    /// The default configuration: recovery enabled, depth 256.
    pub fn standard() -> (c: ParserConfig)
        ensures
            c.recovery,
            c.max_depth == 256,
    {
        ParserConfig { recovery: true, max_depth: 256 }
    }
}

impl Default for ParserConfig {
    fn default() -> (c: ParserConfig)
        ensures
            c.recovery,
            c.max_depth == 256,
    {
        ParserConfig::standard()
    }
}

/// A failure raised while parsing.
#[derive(Debug)]
pub enum ParseError {
    /// A failure of the lexer.
    LexError(LexError),
    /// An unexpected token.
    UnexpectedToken { expected: String, found: String },
    /// Unexpected end of input.
    UnexpectedEof { expected: String },
    /// Invalid syntax.
    InvalidSyntax { message: String },
    /// A type error found during parsing.
    TypeError { message: String },
    /// The recursion limit was exceeded.
    RecursionLimit { max_depth: usize },
}

/// Result type for parser operations.
pub type ParseResult<T> = Result<T, ParseError>;

/// The parser for source modules. The grammar lives in the excluded front
/// end; the core keeps the configuration surface and the type parser stub.
#[derive(Debug, Clone, Copy)]
pub struct SyntonParser {
    config: ParserConfig,
}

impl SyntonParser {
    /// The configuration the parser was built with.
    pub closed spec fn spec_config(&self) -> ParserConfig {
        self.config
    }

    /// A parser with the default configuration.
    pub fn new() -> (p: SyntonParser)
        ensures
            p.spec_config().recovery,
            p.spec_config().max_depth == 256,
    {
        SyntonParser::with_config(ParserConfig::standard())
    }

    /// A parser with the given configuration.
    pub fn with_config(config: ParserConfig) -> (p: SyntonParser)
        ensures
            p.spec_config() == config,
    {
        SyntonParser { config }
    }

    /// Parses a type. The grammar is not wired in yet: every input denotes
    /// the 32-bit integer type at the start position.
    pub fn parse_type(&self, source: &str) -> (r: ParseResult<Type>)
        ensures
            match r {
                Ok(t) => {
                    &&& t.kind == TypeKind::Builtin(BuiltinType::I32)
                    &&& t.span.start == (Position { line: 1u32, column: 1u32, offset: 0u32 })
                    &&& t.span.end == (Position { line: 1u32, column: 1u32, offset: 0u32 })
                },
                Err(_) => false,
            },
    {
        let _ = source;
        Ok(Type::new(TypeKind::Builtin(BuiltinType::I32), Span::new(
            Position::start(),
            Position::start(),
        )))
    }
}

impl Default for SyntonParser {
    fn default() -> (p: SyntonParser)
        ensures
            p.spec_config().recovery,
            p.spec_config().max_depth == 256,
    {
        SyntonParser::new()
    }
}

/// Parses a type with a default-configured parser.
pub fn parse_type(source: &str) -> (r: ParseResult<Type>)
    ensures
        match r {
            Ok(t) => t.kind == TypeKind::Builtin(BuiltinType::I32),
            Err(_) => false,
        },
{
    SyntonParser::new().parse_type(source)
}

} // verus!
