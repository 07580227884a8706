use vstd::prelude::*;

use crate::token::{Symbol, TokenKind};

verus! {

/// Errors that end a parse.
#[derive(Debug, Clone, PartialEq)]
pub enum CompilerError {
    /// The token kind that was expected (or found), with the line and column.
    UnexpectedToken(TokenKind, usize, usize),
    CannotConvertFromImmutableToMutable,
    UnInitializedVariable(String),
    InvalidUseOfMutableKeyword,
    UndefinedVariable(String),
    InvalidOperationAsAssignmentOperation,
    /// A symbol in operand position that the grammar has no rule for yet.
    NotYetSupported(TokenKind, usize, usize),
}

/// Advisory messages that never stop a parse.
#[derive(Debug, Clone, PartialEq)]
pub enum Diagnostic {
    /// `mutable` was written again for a binding that is already mutable.
    RedundantMutableKeyword(String),
    /// An expected delimiter was absent at this line and column; parsing went on without it.
    MissingSymbol(Symbol, usize, usize),
}

} // verus!
