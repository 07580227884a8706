use vstd::prelude::*;

use crate::ast::AbstractSyntaxTree;
use crate::block::{bind, empty_block, lookup, with_statements, BlockModel};
use crate::datatypes::{DataType, Variable};
use crate::errors::{CompilerError, Diagnostic};
use crate::lexer::{advanced, token_at};
use crate::operators::{
    binary_precedence, unary_precedence, Arithmetic, Assignment, Logical, Operator, Relational,
};
use crate::token::{Keyword, Symbol, Token, TokenKind};

verus! {

/// Everything a parse step reads and changes: the cursor, the scope tree and the advisories.
pub struct ParseState {
    pub pos: int,
    pub tree: Seq<BlockModel>,
    pub diagnostics: Seq<Diagnostic>,
}

pub open spec fn at_pos(st: ParseState, pos: int) -> ParseState {
    ParseState { pos, ..st }
}

/// The operator that a lead symbol writes on its own.
pub open spec fn single_symbol_operator(s: Symbol) -> Option<Operator> {
    match s {
        Symbol::Equals => Some(Operator::AssignmentOperator(Assignment::SimpleAssignment)),
        Symbol::Plus => Some(Operator::ArithmeticOperator(Arithmetic::Addition)),
        Symbol::Minus => Some(Operator::ArithmeticOperator(Arithmetic::Subtraction)),
        Symbol::Asterisk => Some(Operator::ArithmeticOperator(Arithmetic::Multiplication)),
        Symbol::Slash => Some(Operator::ArithmeticOperator(Arithmetic::Division)),
        Symbol::Percent => Some(Operator::ArithmeticOperator(Arithmetic::Modulo)),
        Symbol::Exclamation => Some(Operator::LogicalOperator(Logical::Not)),
        Symbol::GreaterThan => Some(Operator::RelationalOperator(Relational::GreaterThan)),
        Symbol::LessThan => Some(Operator::RelationalOperator(Relational::LessThan)),
        _ => None,
    }
}

/// The operator that a lead symbol writes when `=` follows it.
pub open spec fn equals_form_operator(s: Symbol) -> Option<Operator> {
    match s {
        Symbol::Equals => Some(Operator::RelationalOperator(Relational::Equality)),
        Symbol::Plus => Some(Operator::AssignmentOperator(Assignment::AdditionAssignment)),
        Symbol::Minus => Some(Operator::AssignmentOperator(Assignment::SubtractionAssignment)),
        Symbol::Asterisk => Some(Operator::AssignmentOperator(Assignment::MultiplicationAssignment)),
        Symbol::Slash => Some(Operator::AssignmentOperator(Assignment::DivisionAssignment)),
        Symbol::Percent => Some(Operator::AssignmentOperator(Assignment::ModuloAssignment)),
        Symbol::Exclamation => Some(Operator::RelationalOperator(Relational::Inequality)),
        Symbol::GreaterThan => Some(Operator::RelationalOperator(Relational::GreaterThanOrEquals)),
        Symbol::LessThan => Some(Operator::RelationalOperator(Relational::LessThanOrEquals)),
        _ => None,
    }
}

/// The operator, and its width in tokens, that starts with symbol `s` followed by the kinds
/// `next` and `third`; the longest form wins.
pub open spec fn symbol_operator(s: Symbol, next: TokenKind, third: TokenKind) -> Option<
    (Operator, nat),
> {
    match single_symbol_operator(s) {
        None => None,
        Some(single) => if next == TokenKind::SymbolToken(Symbol::Equals) {
            Some((equals_form_operator(s).unwrap(), 2))
        } else if s == Symbol::Asterisk && next == TokenKind::SymbolToken(Symbol::Asterisk) {
            if third == TokenKind::SymbolToken(Symbol::Equals) {
                Some((Operator::AssignmentOperator(Assignment::ExponentiationAssignment), 3))
            } else {
                Some((Operator::ArithmeticOperator(Arithmetic::Exponentiation), 2))
            }
        } else {
            Some((single, 1))
        },
    }
}

/// The operator, and its width in tokens, written by keyword `k` followed by the kind `next`.
pub open spec fn keyword_operator(k: Keyword, next: TokenKind) -> Option<(Operator, nat)> {
    match k {
        Keyword::Is => if next == TokenKind::KeywordToken(Keyword::Not) {
            Some((Operator::RelationalOperator(Relational::Inequality), 2))
        } else {
            Some((Operator::RelationalOperator(Relational::Equality), 1))
        },
        Keyword::And => Some((Operator::LogicalOperator(Logical::And), 1)),
        Keyword::Or => Some((Operator::LogicalOperator(Logical::Or), 1)),
        Keyword::Not => Some((Operator::LogicalOperator(Logical::Not), 1)),
        Keyword::Xor => Some((Operator::LogicalOperator(Logical::Xor), 1)),
        _ => None,
    }
}

/// The operator that the tokens from index `i` on encode, with how many tokens it takes.
pub open spec fn operator_at(toks: Seq<Token>, i: int) -> Option<(Operator, nat)> {
    match token_at(toks, i).kind {
        TokenKind::SymbolToken(s) => symbol_operator(
            s,
            token_at(toks, i + 1).kind,
            token_at(toks, i + 2).kind,
        ),
        TokenKind::KeywordToken(k) => keyword_operator(k, token_at(toks, i + 1).kind),
        _ => None,
    }
}

/// An operator is only ever found on real tokens, and takes at least one of them.
pub proof fn lemma_operator_in_range(toks: Seq<Token>, i: int)
    requires
        operator_at(toks, i) is Some,
    ensures
        0 <= i < toks.len(),
        1 <= operator_at(toks, i).unwrap().1 <= 3,
{
}

/// The rules of `mutable name <op> expression` once the right-hand side is parsed: what the
/// statement yields, and the tree and advisories afterwards.
pub open spec fn mutable_assignment(
    name: String,
    op: Operator,
    expr: AbstractSyntaxTree,
    b: int,
    tree: Seq<BlockModel>,
    diagnostics: Seq<Diagnostic>,
) -> Result<(AbstractSyntaxTree, Seq<BlockModel>, Seq<Diagnostic>), CompilerError> {
    let node = AbstractSyntaxTree::AssignmentExpression(name, op, Box::new(expr));
    match op {
        Operator::AssignmentOperator(kind) => match lookup(tree, b, name@) {
            Some(v) => if v.mutable {
                let value = if kind == Assignment::SimpleAssignment {
                    DataType::InternalUndefined
                } else {
                    v.value
                };
                Ok(
                    (
                        node,
                        bind(tree, b, name@, Variable { value, mutable: true }),
                        diagnostics.push(Diagnostic::RedundantMutableKeyword(name)),
                    ),
                )
            } else {
                Err(CompilerError::CannotConvertFromImmutableToMutable)
            },
            None => if kind == Assignment::SimpleAssignment {
                Ok(
                    (
                        node,
                        bind(
                            tree,
                            b,
                            name@,
                            Variable { value: DataType::InternalUndefined, mutable: true },
                        ),
                        diagnostics,
                    ),
                )
            } else {
                Err(CompilerError::UndefinedVariable(name))
            },
        },
        _ => Err(CompilerError::InvalidOperationAsAssignmentOperation),
    }
}

/// What a parse step yields, with the state it leaves, on success and on failure alike.
pub type Step<T> = (Result<T, CompilerError>, ParseState);

/// A statement or expression at `st.pos`, in block `b`.
pub open spec fn assignment_expression(toks: Seq<Token>, b: int, st: ParseState) -> Step<
    AbstractSyntaxTree,
>
    decreases toks.len() - st.pos, 3int,
{
    match token_at(toks, st.pos).kind {
        TokenKind::KeywordToken(Keyword::Mutable) => mutable_declaration(toks, b, st),
        TokenKind::IdentifierToken(name) => match operator_at(toks, st.pos + 1) {
            Some((op, k)) => if op is AssignmentOperator {
                let (r, st1) = assignment_expression(
                    toks,
                    b,
                    at_pos(st, advanced(toks, st.pos, 1 + k as int)),
                );
                (
                    match r {
                        Ok(e) => Ok(AbstractSyntaxTree::AssignmentExpression(name, op, Box::new(e))),
                        Err(err) => Err(err),
                    },
                    st1,
                )
            } else {
                arithmetic_expression(toks, b, 0, st)
            },
            None => arithmetic_expression(toks, b, 0, st),
        },
        _ => arithmetic_expression(toks, b, 0, st),
    }
}

/// A statement that starts with the `mutable` keyword at `st.pos`. The errors found before the
/// right-hand side is parsed leave the state as it was.
pub open spec fn mutable_declaration(toks: Seq<Token>, b: int, st: ParseState) -> Step<
    AbstractSyntaxTree,
>
    decreases toks.len() - st.pos, 2int,
{
    match token_at(toks, st.pos + 1).kind {
        TokenKind::IdentifierToken(name) => match operator_at(toks, st.pos + 2) {
            Some((op, k)) => {
                let (r, st1) = assignment_expression(
                    toks,
                    b,
                    at_pos(st, advanced(toks, st.pos, 2 + k as int)),
                );
                match r {
                    Ok(e) => match mutable_assignment(name, op, e, b, st1.tree, st1.diagnostics) {
                        Ok((node, tree, diagnostics)) => (
                            Ok(node),
                            ParseState { pos: st1.pos, tree, diagnostics },
                        ),
                        Err(err) => (Err(err), st1),
                    },
                    Err(err) => (Err(err), st1),
                }
            },
            None => (
                if lookup(st.tree, b, name@) is Some {
                    Err(CompilerError::CannotConvertFromImmutableToMutable)
                } else {
                    Err(CompilerError::UnInitializedVariable(name))
                },
                st,
            ),
        },
        _ => (Err(CompilerError::InvalidUseOfMutableKeyword), st),
    }
}

/// Precedence climbing: an expression whose operators all bind tighter than `min` (a prefix
/// operator qualifies when it binds at least as tightly).
pub open spec fn arithmetic_expression(toks: Seq<Token>, b: int, min: nat, st: ParseState) -> Step<
    AbstractSyntaxTree,
>
    decreases toks.len() - st.pos, 1int,
{
    let (first, st1) = match operator_at(toks, st.pos) {
        Some((op, k)) => if unary_precedence(op) > 0 && unary_precedence(op) >= min {
            let (r, s) = arithmetic_expression(
                toks,
                b,
                unary_precedence(op),
                at_pos(st, advanced(toks, st.pos, 1)),
            );
            (
                match r {
                    Ok(e) => Ok(AbstractSyntaxTree::UnaryExpression(op, Box::new(e))),
                    Err(err) => Err(err),
                },
                s,
            )
        } else {
            factor(toks, b, st)
        },
        None => factor(toks, b, st),
    };
    match first {
        // The cursor never moves backwards; the bound only makes termination evident.
        Ok(left) => if st.pos <= st1.pos <= toks.len() {
            binary_tail(toks, b, min, left, st1)
        } else {
            (Ok(left), st1)
        },
        Err(err) => (Err(err), st1),
    }
}

/// Folds the infix operators that bind tighter than `min` onto `left`, left-associatively.
pub open spec fn binary_tail(
    toks: Seq<Token>,
    b: int,
    min: nat,
    left: AbstractSyntaxTree,
    st: ParseState,
) -> Step<AbstractSyntaxTree>
    decreases toks.len() - st.pos, 0int,
{
    match operator_at(toks, st.pos) {
        Some((op, k)) => if binary_precedence(op) > min {
            let st1 = at_pos(st, advanced(toks, st.pos, k as int));
            let (r, st2) = arithmetic_expression(toks, b, binary_precedence(op), st1);
            match r {
                Ok(right) => {
                    let joined = AbstractSyntaxTree::BinaryExpression(
                        Box::new(left),
                        op,
                        Box::new(right),
                    );
                    if st.pos < st2.pos <= toks.len() {
                        binary_tail(toks, b, min, joined, st2)
                    } else {
                        (Ok(joined), st2)
                    }
                },
                Err(err) => (Err(err), st2),
            }
        } else {
            (Ok(left), st)
        },
        None => (Ok(left), st),
    }
}

/// A primary term: a literal, an identifier, or a parenthesized expression. The token it starts
/// at is consumed whatever it is, and so is the one after a parenthesized expression.
pub open spec fn factor(toks: Seq<Token>, b: int, st: ParseState) -> Step<AbstractSyntaxTree>
    decreases toks.len() - st.pos, 0int,
{
    let tok = token_at(toks, st.pos);
    let st1 = at_pos(st, advanced(toks, st.pos, 1));
    match tok.kind {
        TokenKind::LiteralToken(v) => (Ok(AbstractSyntaxTree::Literal(v)), st1),
        TokenKind::IdentifierToken(name) => (Ok(AbstractSyntaxTree::Identifier(name)), st1),
        TokenKind::SymbolToken(Symbol::OpenParenthesis) => {
            let (r, st2) = assignment_expression(toks, b, st1);
            match r {
                Ok(inner) => (
                    if token_at(toks, st2.pos).kind == TokenKind::SymbolToken(
                        Symbol::CloseParenthesis,
                    ) {
                        Ok(AbstractSyntaxTree::ParenthesizedExpression(Box::new(inner)))
                    } else {
                        Err(
                            CompilerError::UnexpectedToken(
                                TokenKind::SymbolToken(Symbol::CloseParenthesis),
                                tok.line,
                                tok.column,
                            ),
                        )
                    },
                    at_pos(st2, advanced(toks, st2.pos, 1)),
                ),
                Err(err) => (Err(err), st2),
            }
        },
        TokenKind::SymbolToken(Symbol::CloseParenthesis) => (
            Err(
                CompilerError::UnexpectedToken(
                    TokenKind::SymbolToken(Symbol::CloseParenthesis),
                    tok.line,
                    tok.column,
                ),
            ),
            st1,
        ),
        TokenKind::SymbolToken(_) => (
            Err(CompilerError::NotYetSupported(tok.kind, tok.line, tok.column)),
            st1,
        ),
        _ => (Err(CompilerError::UnexpectedToken(tok.kind, tok.line, tok.column)), st1),
    }
}

/// Whether a statement list stops at the kind `kind`: at end of input, and inside braces also at
/// the closing brace.
pub open spec fn ends_statements(kind: TokenKind, nested: bool) -> bool {
    kind == TokenKind::EndOfFileToken || (nested && kind == TokenKind::SymbolToken(
        Symbol::CloseCurlyBracket,
    ))
}

/// The statements of block `b` from `st.pos` up to where the list ends; the first error ends the
/// list.
pub open spec fn statements(toks: Seq<Token>, b: int, nested: bool, st: ParseState) -> Step<
    Seq<AbstractSyntaxTree>,
>
    decreases toks.len() - st.pos,
{
    if ends_statements(token_at(toks, st.pos).kind, nested) {
        (Ok(Seq::empty()), st)
    } else {
        let (r, st1) = assignment_expression(toks, b, st);
        match r {
            Ok(s) => if st.pos < st1.pos <= toks.len() {
                let (rest, st2) = statements(toks, b, nested, st1);
                (
                    match rest {
                        Ok(more) => Ok(seq![s] + more),
                        Err(err) => Err(err),
                    },
                    st2,
                )
            } else {
                (Ok(seq![s]), st1)
            },
            Err(err) => (Err(err), st1),
        }
    }
}

/// The cursor after expecting the symbol `s` at `pos`: one further if it is there, else unmoved.
pub open spec fn expect_symbol(toks: Seq<Token>, pos: int, s: Symbol) -> int {
    if token_at(toks, pos).kind == TokenKind::SymbolToken(s) {
        advanced(toks, pos, 1)
    } else {
        pos
    }
}

/// The advisories after expecting the symbol `s` at `pos`: one more when it is absent.
pub open spec fn expect_diagnostics(
    toks: Seq<Token>,
    pos: int,
    s: Symbol,
    diagnostics: Seq<Diagnostic>,
) -> Seq<Diagnostic> {
    let tok = token_at(toks, pos);
    if tok.kind == TokenKind::SymbolToken(s) {
        diagnostics
    } else {
        diagnostics.push(Diagnostic::MissingSymbol(s, tok.line, tok.column))
    }
}

/// A braced block under block `parent`: the handle of the new block, and the state after it.
pub open spec fn braced_block(toks: Seq<Token>, parent: int, st: ParseState) -> Step<int> {
    let child = st.tree.len() as int;
    let st1 = ParseState {
        pos: expect_symbol(toks, st.pos, Symbol::OpenCurlyBracket),
        tree: st.tree.push(empty_block(Some(parent as usize))),
        diagnostics: expect_diagnostics(toks, st.pos, Symbol::OpenCurlyBracket, st.diagnostics),
    };
    let (r, st2) = statements(toks, child, true, st1);
    match r {
        Ok(stmts) => (
            Ok(child),
            ParseState {
                pos: expect_symbol(toks, st2.pos, Symbol::CloseCurlyBracket),
                tree: with_statements(st2.tree, child, stmts),
                diagnostics: expect_diagnostics(
                    toks,
                    st2.pos,
                    Symbol::CloseCurlyBracket,
                    st2.diagnostics,
                ),
            },
        ),
        Err(err) => (Err(err), st2),
    }
}

/// A whole program from `pos`: a fresh global block that holds every statement up to the end.
/// On success the state's tree is the program; on failure the state is where the first error
/// left it.
pub open spec fn program(toks: Seq<Token>, pos: int, diagnostics: Seq<Diagnostic>) -> Step<()> {
    let st0 = ParseState { pos, tree: seq![empty_block(None)], diagnostics };
    let (r, st) = statements(toks, 0, false, st0);
    match r {
        Ok(stmts) => (
            Ok(()),
            ParseState {
                pos: st.pos,
                tree: with_statements(st.tree, 0, stmts),
                diagnostics: st.diagnostics,
            },
        ),
        Err(err) => (Err(err), st),
    }
}

} // verus!
