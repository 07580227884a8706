use vstd::prelude::*;

use crate::datatypes::DataType;

verus! {

/// Reserved words of the language.
#[derive(Debug, Clone, Copy, PartialEq, Eq, Structural)]
pub enum Keyword {
    Mutable,
    Is,
    Not,
    And,
    Or,
    Xor,
    In,
    If,
    Else,
    While,
}

/// Punctuation and operator characters.
#[derive(Debug, Clone, Copy, PartialEq, Eq, Structural)]
pub enum Symbol {
    Equals,
    Plus,
    Minus,
    Asterisk,
    Slash,
    Percent,
    Exclamation,
    GreaterThan,
    LessThan,
    OpenParenthesis,
    CloseParenthesis,
    OpenCurlyBracket,
    CloseCurlyBracket,
    Comma,
    Semicolon,
}

/// What a token is, as classified by the lexer.
#[derive(Debug, Clone, PartialEq)]
pub enum TokenKind {
    LiteralToken(DataType),
    /// A run of whitespace, with its width.
    WhitespaceToken(usize),
    NewLineToken,
    KeywordToken(Keyword),
    SymbolToken(Symbol),
    /// Stands in for a token that was expected and not found.
    FactoryToken,
    IdentifierToken(String),
    EndOfFileToken,
}

impl TokenKind {
    pub fn duplicate(&self) -> (r: TokenKind)
        ensures
            r == *self,
    {
        match self {
            TokenKind::LiteralToken(v) => TokenKind::LiteralToken(v.duplicate()),
            TokenKind::WhitespaceToken(n) => TokenKind::WhitespaceToken(*n),
            TokenKind::NewLineToken => TokenKind::NewLineToken,
            TokenKind::KeywordToken(k) => TokenKind::KeywordToken(*k),
            TokenKind::SymbolToken(s) => TokenKind::SymbolToken(*s),
            TokenKind::FactoryToken => TokenKind::FactoryToken,
            TokenKind::IdentifierToken(name) => TokenKind::IdentifierToken(name.clone()),
            TokenKind::EndOfFileToken => TokenKind::EndOfFileToken,
        }
    }
}

/// A classified token with its 1-based source position.
#[derive(Debug, Clone, PartialEq)]
pub struct Token {
    pub kind: TokenKind,
    pub line: usize,
    pub column: usize,
}

impl Token {
    pub fn new(kind: TokenKind, line: usize, column: usize) -> (r: Token)
        ensures
            r == (Token { kind, line, column }),
    {
        Token { kind, line, column }
    }

    pub fn duplicate(&self) -> (r: Token)
        ensures
            r == *self,
    {
        Token { kind: self.kind.duplicate(), line: self.line, column: self.column }
    }
}

} // verus!
