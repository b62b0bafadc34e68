//! Tokens of the surface language and their classification, together with
//! the lexer's failure taxonomy. Tokenization itself belongs to the
//! excluded front end; the core only classifies tokens.

use vstd::prelude::*;

verus! {

/// A token of the surface language.
#[derive(Debug, Clone, PartialEq, Eq)]
pub enum Token {
    // Delimiters
    LParen,
    RParen,
    LBracket,
    RBracket,
    LBrace,
    RBrace,
    Semi,
    Comma,
    Colon,
    ColonColon,
    Arrow,
    // Operators
    Plus,
    Minus,
    Star,
    Slash,
    Percent,
    Caret,
    Amp,
    Pipe,
    Bang,
    Eq,
    Lt,
    Gt,
    Tilde,
    Dot,
    // Multi-character operators
    EqEq,
    NotEq,
    LtEq,
    GtEq,
    AndAnd,
    OrOr,
    Shl,
    Shr,
    StarStar,
    // Short operators
    Question,
    Dollar,
    At,
    // Keywords
    KwFn,
    KwLet,
    KwSet,
    KwIf,
    KwElse,
    KwBranch,
    KwMatch,
    KwLoop,
    KwWhile,
    KwFor,
    KwIn,
    KwBreak,
    KwContinue,
    KwReturn,
    KwStruct,
    KwEnum,
    KwType,
    KwConst,
    KwImport,
    KwExport,
    KwAs,
    KwMod,
    // Type keywords
    KwI32,
    KwI64,
    KwU32,
    KwU64,
    KwF32,
    KwF64,
    KwBool,
    KwString,
    KwStr,
    KwChar,
    KwList,
    KwMap,
    KwMaybe,
    KwResult,
    // Literals
    Integer(i64),
    Float,
    Char(char),
    String(String),
    ByteString(String),
    True,
    False,
    // Special tokens
    FatArrow,
    // Identifiers
    Identifier(String),
}

impl Token {
    /// Whether the token is a keyword.
    pub fn is_keyword(&self) -> (r: bool)
        ensures
            r == (self is KwFn || self is KwLet || self is KwSet || self is KwIf
                || self is KwElse || self is KwBranch || self is KwMatch || self is KwLoop
                || self is KwWhile || self is KwFor || self is KwIn || self is KwBreak
                || self is KwContinue || self is KwReturn || self is KwStruct
                || self is KwEnum || self is KwType || self is KwConst || self is KwImport
                || self is KwExport || self is KwAs || self is KwMod),
    {
        match self {
            Token::KwFn | Token::KwLet | Token::KwSet | Token::KwIf | Token::KwElse
                | Token::KwBranch | Token::KwMatch | Token::KwLoop | Token::KwWhile
                | Token::KwFor | Token::KwIn | Token::KwBreak | Token::KwContinue
                | Token::KwReturn | Token::KwStruct | Token::KwEnum | Token::KwType
                | Token::KwConst | Token::KwImport | Token::KwExport | Token::KwAs
                | Token::KwMod => true,
            _ => false,
        }
    }

    /// Whether the token is a type keyword.
    pub fn is_type_keyword(&self) -> (r: bool)
        ensures
            r == (self is KwI32 || self is KwI64 || self is KwU32 || self is KwU64
                || self is KwF32 || self is KwF64 || self is KwBool || self is KwString
                || self is KwStr || self is KwChar || self is KwList || self is KwMap
                || self is KwMaybe || self is KwResult),
    {
        match self {
            Token::KwI32 | Token::KwI64 | Token::KwU32 | Token::KwU64 | Token::KwF32
                | Token::KwF64 | Token::KwBool | Token::KwString | Token::KwStr
                | Token::KwChar | Token::KwList | Token::KwMap | Token::KwMaybe
                | Token::KwResult => true,
            _ => false,
        }
    }

    /// Whether the token is a literal.
    pub fn is_literal(&self) -> (r: bool)
        ensures
            r == (self is Integer || self is Float || self is Char || self is String
                || self is True || self is False),
    {
        match self {
            Token::Integer(_) | Token::Float | Token::Char(_) | Token::String(_)
                | Token::True | Token::False => true,
            _ => false,
        }
    }

    /// Whether an expression can start with the token.
    pub fn can_start_expr(&self) -> (r: bool)
        ensures
            r == (self is Integer || self is Float || self is String || self is True
                || self is False || self is Identifier || self is LParen || self is LBracket
                || self is LBrace || self is Minus || self is Bang || self is Tilde
                || self is Star || self is Amp || self is Question || self is Dollar),
    {
        match self {
            Token::Integer(_) | Token::Float | Token::String(_) | Token::True | Token::False
                | Token::Identifier(_) | Token::LParen | Token::LBracket | Token::LBrace
                | Token::Minus | Token::Bang | Token::Tilde | Token::Star | Token::Amp
                | Token::Question | Token::Dollar => true,
            _ => false,
        }
    }
}

/// A token with its location: the byte range it spans in the source.
#[derive(Debug)]
pub struct TokenKind {
    pub token: Token,
    /// `(start, end)` byte offsets.
    pub span: (usize, usize),
}

/// A failure raised while tokenizing.
#[derive(Debug)]
pub enum LexError {
    /// An invalid token was encountered.
    InvalidToken { text: String, offset: usize },
    /// A string literal was not terminated.
    UnterminatedString { start: usize },
    /// An invalid escape sequence.
    InvalidEscape { seq: String, offset: usize },
    /// An invalid character literal.
    InvalidChar { text: String, offset: usize },
    /// Unexpected end of file.
    UnexpectedEof,
    /// A generic failure with a message.
    Other(String),
}

impl LexError {
    /// The byte range the failure points at, as `(start, end)`.
    pub fn span(&self) -> (r: (usize, usize))
        ensures
            r == (match *self {
                LexError::InvalidToken { offset, .. } => if offset < usize::MAX {
                    (offset, (offset + 1) as usize)
                } else {
                    (offset, offset)
                },
                LexError::UnterminatedString { start } => if start < usize::MAX {
                    (start, (start + 1) as usize)
                } else {
                    (start, start)
                },
                LexError::InvalidEscape { offset, .. } => if offset < usize::MAX - 1 {
                    (offset, (offset + 2) as usize)
                } else {
                    (offset, offset)
                },
                LexError::InvalidChar { offset, .. } => if offset < usize::MAX {
                    (offset, (offset + 1) as usize)
                } else {
                    (offset, offset)
                },
                LexError::UnexpectedEof => (0usize, 0usize),
                LexError::Other(_) => (0usize, 0usize),
            }),
    {
        match self {
            LexError::InvalidToken { offset, .. } => {
                if *offset < usize::MAX {
                    (*offset, *offset + 1)
                } else {
                    (*offset, *offset)
                }
            },
            LexError::UnterminatedString { start } => {
                if *start < usize::MAX {
                    (*start, *start + 1)
                } else {
                    (*start, *start)
                }
            },
            LexError::InvalidEscape { offset, .. } => {
                if *offset < usize::MAX - 1 {
                    (*offset, *offset + 2)
                } else {
                    (*offset, *offset)
                }
            },
            LexError::InvalidChar { offset, .. } => {
                if *offset < usize::MAX {
                    (*offset, *offset + 1)
                } else {
                    (*offset, *offset)
                }
            },
            LexError::UnexpectedEof => (0, 0),
            LexError::Other(_) => (0, 0),
        }
    }
}

/// Result type for lexer operations.
pub type LexResult<T> = Result<T, LexError>;

} // verus!
