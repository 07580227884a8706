use vstd::prelude::*;

use crate::token::{Token, TokenKind};

verus! {

/// The end-of-file token reported past the last token: at the last token's position, or at
/// line 1, column 1 for an empty stream.
pub open spec fn end_token(toks: Seq<Token>) -> Token {
    if toks.len() > 0 {
        Token { kind: TokenKind::EndOfFileToken, line: toks.last().line, column: toks.last().column }
    } else {
        Token { kind: TokenKind::EndOfFileToken, line: 1, column: 1 }
    }
}

/// The token at index `i`, or the end-of-file token past the end.
pub open spec fn token_at(toks: Seq<Token>, i: int) -> Token {
    if 0 <= i < toks.len() {
        toks[i]
    } else {
        end_token(toks)
    }
}

/// The cursor after moving `k` tokens forward from `pos`, stopping at the end.
pub open spec fn advanced(toks: Seq<Token>, pos: int, k: int) -> int {
    if pos + k <= toks.len() {
        pos + k
    } else {
        toks.len() as int
    }
}

/// A cursor over an already classified token sequence.
pub struct Lexer {
    tokens: Vec<Token>,
    position: usize,
    end: Token,
}

impl Lexer {
    pub closed spec fn tokens(&self) -> Seq<Token> {
        self.tokens@
    }

    pub closed spec fn position(&self) -> int {
        self.position as int
    }

    pub closed spec fn wf(&self) -> bool {
        &&& self.position <= self.tokens@.len()
        &&& self.end == end_token(self.tokens@)
    }

    pub proof fn lemma_position_in_range(&self)
        requires
            self.wf(),
        ensures
            0 <= self.position() <= self.tokens().len(),
    {
    }

    pub fn new(tokens: Vec<Token>) -> (r: Lexer)
        ensures
            r.wf(),
            r.tokens() == tokens@,
            r.position() == 0,
    {
        let end = if tokens.len() > 0 {
            let last = &tokens[tokens.len() - 1];
            Token::new(TokenKind::EndOfFileToken, last.line, last.column)
        } else {
            Token::new(TokenKind::EndOfFileToken, 1, 1)
        };
        Lexer { tokens, position: 0, end }
    }

    pub fn get_token_count(&self) -> (r: usize)
        ensures
            r == self.tokens().len(),
    {
        self.tokens.len()
    }

    /// The token `offset` places after the cursor; end-of-file past the end.
    pub fn peek(&self, offset: usize) -> (r: &Token)
        requires
            self.wf(),
        ensures
            *r == token_at(self.tokens(), self.position() + offset),
    {
        if offset < self.tokens.len() - self.position {
            &self.tokens[self.position + offset]
        } else {
            &self.end
        }
    }

    pub fn get_current_token(&self) -> (r: &Token)
        requires
            self.wf(),
        ensures
            *r == token_at(self.tokens(), self.position()),
    {
        self.peek(0)
    }

    /// Moves the cursor `k` tokens forward, stopping at the end.
    pub fn advance_by(&mut self, k: usize)
        requires
            old(self).wf(),
        ensures
            final(self).wf(),
            final(self).tokens() == old(self).tokens(),
            final(self).position() == advanced(old(self).tokens(), old(self).position(), k as int),
    {
        if k <= self.tokens.len() - self.position {
            self.position = self.position + k;
        } else {
            self.position = self.tokens.len();
        }
    }

    pub fn advance(&mut self)
        requires
            old(self).wf(),
        ensures
            final(self).wf(),
            final(self).tokens() == old(self).tokens(),
            final(self).position() == advanced(old(self).tokens(), old(self).position(), 1),
    {
        self.advance_by(1);
    }

    /// The current token, after which the cursor moves one place forward.
    pub fn get_current_token_and_advance(&mut self) -> (r: Token)
        requires
            old(self).wf(),
        ensures
            final(self).wf(),
            final(self).tokens() == old(self).tokens(),
            r == token_at(old(self).tokens(), old(self).position()),
            final(self).position() == advanced(old(self).tokens(), old(self).position(), 1),
    {
        let r = self.get_current_token().duplicate();
        self.advance();
        r
    }
}

} // verus!
