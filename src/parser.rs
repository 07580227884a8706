use vstd::prelude::*;

use crate::ast::AbstractSyntaxTree;
use crate::block::{ScopeTree, BlockModel};
use crate::datatypes::{DataType, Variable};
use crate::errors::{CompilerError, Diagnostic};
use crate::grammar::{
    arithmetic_expression, assignment_expression, binary_tail, braced_block, expect_diagnostics,
    expect_symbol, factor,
    lemma_operator_in_range, mutable_assignment, mutable_declaration, operator_at, program,
    statements, ParseState, Step,
};
use crate::lexer::{token_at, Lexer};
use crate::operators::{Arithmetic, Assignment, Logical, Operator, Relational};
use crate::token::{Keyword, Symbol, Token, TokenKind};

verus! {

/// `r` is what `expected` says a parse step yields, and `after` is the state it leaves, on
/// success and on failure alike.
pub open spec fn delivers<T>(expected: Step<T>, r: Result<T, CompilerError>, after: ParseState) -> bool {
    r == expected.0 && after == expected.1
}

/// The advisories in `before` are still the first ones of `after`.
pub open spec fn keeps_prefix(before: Seq<Diagnostic>, after: Seq<Diagnostic>) -> bool {
    &&& before.len() <= after.len()
    &&& forall|i: int| 0 <= i < before.len() ==> after[i] == before[i]
}

/// No block but `b` differs between the two trees, and none was added.
pub open spec fn only_block_changes(before: Seq<BlockModel>, after: Seq<BlockModel>, b: int) -> bool {
    &&& after.len() == before.len()
    &&& forall|i: int| 0 <= i < before.len() && i != b ==> after[i] == before[i]
}

/// Recursive-descent parser over a token stream, tracking mutability through a scope tree.
pub struct Parser {
    lexer: Lexer,
    diagnostics: Vec<Diagnostic>,
}

impl Parser {
    pub closed spec fn wf(&self) -> bool {
        &&& self.lexer.wf()
        &&& 0 <= self.lexer.position() <= self.lexer.tokens().len()
    }

    pub closed spec fn tokens(&self) -> Seq<Token> {
        self.lexer.tokens()
    }

    pub closed spec fn position(&self) -> int {
        self.lexer.position()
    }

    /// The advisories collected so far.
    pub closed spec fn diagnostics_model(&self) -> Seq<Diagnostic> {
        self.diagnostics@
    }

    pub open spec fn state(&self, tree: Seq<BlockModel>) -> ParseState {
        ParseState { pos: self.position(), tree, diagnostics: self.diagnostics_model() }
    }

    pub fn new(lexer: Lexer) -> (r: Parser)
        requires
            lexer.wf(),
        ensures
            r.wf(),
            r.tokens() == lexer.tokens(),
            r.position() == lexer.position(),
            r.diagnostics_model() == Seq::<Diagnostic>::empty(),
    {
        proof {
            lexer.lemma_position_in_range();
        }
        Parser { lexer, diagnostics: Vec::new() }
    }

    pub fn diagnostics(&self) -> (r: &Vec<Diagnostic>)
        ensures
            r@ == self.diagnostics_model(),
    {
        &self.diagnostics
    }

    /// Whether the token `offset` places ahead is the symbol `s`.
    fn symbol_at(&self, offset: usize, s: Symbol) -> (r: bool)
        requires
            self.wf(),
        ensures
            r == (token_at(self.tokens(), self.position() + offset).kind == TokenKind::SymbolToken(
                s,
            )),
    {
        match &self.lexer.peek(offset).kind {
            TokenKind::SymbolToken(t) => *t == s,
            _ => false,
        }
    }

    /// The operator that starts `offset` tokens ahead, with the number of tokens from the cursor
    /// up to and including it. Nothing is consumed.
    pub fn match_operator(&self, offset: usize) -> (r: Option<(Operator, usize)>)
        requires
            self.wf(),
            offset <= usize::MAX - 3,
        ensures
            r == match operator_at(self.tokens(), self.position() + offset) {
                Some((op, k)) => Some((op, (offset + k) as usize)),
                None => None,
            },
    {
        let found: Option<(Operator, usize)> = match &self.lexer.peek(offset).kind {
            TokenKind::SymbolToken(lead) => {
                let equals_next = self.symbol_at(offset + 1, Symbol::Equals);
                match lead {
                    Symbol::Equals => if equals_next {
                        Some((Operator::RelationalOperator(Relational::Equality), 2))
                    } else {
                        Some((Operator::AssignmentOperator(Assignment::SimpleAssignment), 1))
                    },
                    Symbol::Plus => if equals_next {
                        Some((Operator::AssignmentOperator(Assignment::AdditionAssignment), 2))
                    } else {
                        Some((Operator::ArithmeticOperator(Arithmetic::Addition), 1))
                    },
                    Symbol::Minus => if equals_next {
                        Some((Operator::AssignmentOperator(Assignment::SubtractionAssignment), 2))
                    } else {
                        Some((Operator::ArithmeticOperator(Arithmetic::Subtraction), 1))
                    },
                    Symbol::Asterisk => if equals_next {
                        Some(
                            (Operator::AssignmentOperator(Assignment::MultiplicationAssignment), 2),
                        )
                    } else if self.symbol_at(offset + 1, Symbol::Asterisk) {
                        if self.symbol_at(offset + 2, Symbol::Equals) {
                            Some(
                                (
                                    Operator::AssignmentOperator(
                                        Assignment::ExponentiationAssignment,
                                    ),
                                    3,
                                ),
                            )
                        } else {
                            Some((Operator::ArithmeticOperator(Arithmetic::Exponentiation), 2))
                        }
                    } else {
                        Some((Operator::ArithmeticOperator(Arithmetic::Multiplication), 1))
                    },
                    Symbol::Slash => if equals_next {
                        Some((Operator::AssignmentOperator(Assignment::DivisionAssignment), 2))
                    } else {
                        Some((Operator::ArithmeticOperator(Arithmetic::Division), 1))
                    },
                    Symbol::Percent => if equals_next {
                        Some((Operator::AssignmentOperator(Assignment::ModuloAssignment), 2))
                    } else {
                        Some((Operator::ArithmeticOperator(Arithmetic::Modulo), 1))
                    },
                    Symbol::Exclamation => if equals_next {
                        Some((Operator::RelationalOperator(Relational::Inequality), 2))
                    } else {
                        Some((Operator::LogicalOperator(Logical::Not), 1))
                    },
                    Symbol::GreaterThan => if equals_next {
                        Some((Operator::RelationalOperator(Relational::GreaterThanOrEquals), 2))
                    } else {
                        Some((Operator::RelationalOperator(Relational::GreaterThan), 1))
                    },
                    Symbol::LessThan => if equals_next {
                        Some((Operator::RelationalOperator(Relational::LessThanOrEquals), 2))
                    } else {
                        Some((Operator::RelationalOperator(Relational::LessThan), 1))
                    },
                    _ => None,
                }
            },
            TokenKind::KeywordToken(keyword) => match keyword {
                Keyword::Is => {
                    let not_next = match &self.lexer.peek(offset + 1).kind {
                        TokenKind::KeywordToken(Keyword::Not) => true,
                        _ => false,
                    };
                    if not_next {
                        Some((Operator::RelationalOperator(Relational::Inequality), 2))
                    } else {
                        Some((Operator::RelationalOperator(Relational::Equality), 1))
                    }
                },
                Keyword::And => Some((Operator::LogicalOperator(Logical::And), 1)),
                Keyword::Or => Some((Operator::LogicalOperator(Logical::Or), 1)),
                Keyword::Not => Some((Operator::LogicalOperator(Logical::Not), 1)),
                Keyword::Xor => Some((Operator::LogicalOperator(Logical::Xor), 1)),
                _ => None,
            },
            _ => None,
        };
        match found {
            Some((op, length)) => Some((op, offset + length)),
            None => None,
        }
    }


    /// Consumes the current token when it is the symbol `s`. Otherwise nothing is consumed, an
    /// advisory records the absence, and a placeholder at the current token's position comes
    /// back, so that parsing goes on.
    fn match_token(&mut self, s: Symbol) -> (r: Token)
        requires
            old(self).wf(),
        ensures
            final(self).wf(),
            final(self).tokens() == old(self).tokens(),
            final(self).diagnostics_model() == expect_diagnostics(
                old(self).tokens(),
                old(self).position(),
                s,
                old(self).diagnostics_model(),
            ),
            final(self).position() == expect_symbol(old(self).tokens(), old(self).position(), s),
            ({
                let cur = token_at(old(self).tokens(), old(self).position());
                r == if cur.kind == TokenKind::SymbolToken(s) {
                    cur
                } else {
                    Token { kind: TokenKind::FactoryToken, line: cur.line, column: cur.column }
                }
            }),
    {
        if self.symbol_at(0, s) {
            self.lexer.get_current_token_and_advance()
        } else {
            let current = self.lexer.get_current_token();
            let (line, column) = (current.line, current.column);
            self.diagnostics.push(Diagnostic::MissingSymbol(s, line, column));
            Token::new(TokenKind::FactoryToken, line, column)
        }
    }

    /// One statement or expression in block `block`.
    pub fn parse_expression(&mut self, tree: &mut ScopeTree, block: usize) -> (r: Result<
        AbstractSyntaxTree,
        CompilerError,
    >)
        requires
            old(self).wf(),
            old(tree).wf(),
            block < old(tree)@.len(),
        ensures
            final(self).wf(),
            final(tree).wf(),
            final(self).tokens() == old(self).tokens(),
            only_block_changes(old(tree)@, final(tree)@, block as int),
            keeps_prefix(old(self).diagnostics_model(), final(self).diagnostics_model()),
            old(self).position() <= final(self).position(),
            r is Ok ==> old(self).position() < final(self).position(),
            delivers(
                assignment_expression(old(self).tokens(), block as int, old(self).state(old(tree)@)),
                r,
                final(self).state(final(tree)@),
            ),
        decreases old(self).tokens().len() - old(self).position(), 4int,
    {
        self.parse_assignment_expression(tree, block)
    }

    fn parse_assignment_expression(&mut self, tree: &mut ScopeTree, block: usize) -> (r: Result<
        AbstractSyntaxTree,
        CompilerError,
    >)
        requires
            old(self).wf(),
            old(tree).wf(),
            block < old(tree)@.len(),
        ensures
            final(self).wf(),
            final(tree).wf(),
            final(self).tokens() == old(self).tokens(),
            only_block_changes(old(tree)@, final(tree)@, block as int),
            keeps_prefix(old(self).diagnostics_model(), final(self).diagnostics_model()),
            old(self).position() <= final(self).position(),
            r is Ok ==> old(self).position() < final(self).position(),
            delivers(
                assignment_expression(old(self).tokens(), block as int, old(self).state(old(tree)@)),
                r,
                final(self).state(final(tree)@),
            ),
        decreases old(self).tokens().len() - old(self).position(), 3int,
    {
        let (is_mutable, identifier): (bool, Option<String>) =
            match &self.lexer.get_current_token().kind {
            TokenKind::KeywordToken(Keyword::Mutable) => (true, None),
            TokenKind::IdentifierToken(name) => (false, Some(name.clone())),
            _ => (false, None),
        };
        if is_mutable {
            return self.handle_mutable_keyword(tree, block);
        }
        match identifier {
            Some(name) => match self.match_operator(1) {
                Some((operator, length)) => {
                    if operator.is_assignment() {
                        proof {
                            lemma_operator_in_range(self.tokens(), self.position() + 1);
                        }
                        self.lexer.advance_by(length);
                        let expression = match self.parse_assignment_expression(tree, block) {
                            Ok(e) => e,
                            Err(err) => return Err(err),
                        };
                        Ok(
                            AbstractSyntaxTree::AssignmentExpression(
                                name,
                                operator,
                                Box::new(expression),
                            ),
                        )
                    } else {
                        self.parse_arithmetic_expression(0, tree, block)
                    }
                },
                None => self.parse_arithmetic_expression(0, tree, block),
            },
            None => self.parse_arithmetic_expression(0, tree, block),
        }
    }

    fn handle_mutable_keyword(&mut self, tree: &mut ScopeTree, block: usize) -> (r: Result<
        AbstractSyntaxTree,
        CompilerError,
    >)
        requires
            old(self).wf(),
            old(tree).wf(),
            block < old(tree)@.len(),
        ensures
            final(self).wf(),
            final(tree).wf(),
            final(self).tokens() == old(self).tokens(),
            only_block_changes(old(tree)@, final(tree)@, block as int),
            keeps_prefix(old(self).diagnostics_model(), final(self).diagnostics_model()),
            old(self).position() <= final(self).position(),
            r is Ok ==> old(self).position() < final(self).position(),
            delivers(
                mutable_declaration(old(self).tokens(), block as int, old(self).state(old(tree)@)),
                r,
                final(self).state(final(tree)@),
            ),
        decreases old(self).tokens().len() - old(self).position(), 2int,
    {
        let variable_name = match &self.lexer.peek(1).kind {
            TokenKind::IdentifierToken(name) => name.clone(),
            _ => return Err(CompilerError::InvalidUseOfMutableKeyword),
        };
        match self.match_operator(2) {
            Some((operator, length)) => {
                proof {
                    lemma_operator_in_range(self.tokens(), self.position() + 2);
                }
                self.lexer.advance_by(length);
                let expression = match self.parse_assignment_expression(tree, block) {
                    Ok(e) => e,
                    Err(err) => return Err(err),
                };
                handle_mutable_assignment(
                    &variable_name,
                    operator,
                    expression,
                    tree,
                    block,
                    &mut self.diagnostics,
                )
            },
            None => {
                if tree.contains_symbol(block, &variable_name) {
                    Err(CompilerError::CannotConvertFromImmutableToMutable)
                } else {
                    Err(CompilerError::UnInitializedVariable(variable_name))
                }
            },
        }
    }

    fn parse_arithmetic_expression(
        &mut self,
        parent_precedence: u8,
        tree: &mut ScopeTree,
        block: usize,
    ) -> (r: Result<AbstractSyntaxTree, CompilerError>)
        requires
            old(self).wf(),
            old(tree).wf(),
            block < old(tree)@.len(),
        ensures
            final(self).wf(),
            final(tree).wf(),
            final(self).tokens() == old(self).tokens(),
            only_block_changes(old(tree)@, final(tree)@, block as int),
            keeps_prefix(old(self).diagnostics_model(), final(self).diagnostics_model()),
            old(self).position() <= final(self).position(),
            r is Ok ==> old(self).position() < final(self).position(),
            delivers(
                arithmetic_expression(
                    old(self).tokens(),
                    block as int,
                    parent_precedence as nat,
                    old(self).state(old(tree)@),
                ),
                r,
                final(self).state(final(tree)@),
            ),
        decreases old(self).tokens().len() - old(self).position(), 1int,
    {
        let ghost toks = self.tokens();
        let ghost st0 = self.state(tree@);
        let unary: Option<(Operator, u8)> = match self.match_operator(0) {
            Some((operator, _)) => {
                let precedence = operator.get_unary_precedence();
                if precedence > 0 && precedence >= parent_precedence {
                    Some((operator, precedence))
                } else {
                    None
                }
            },
            None => None,
        };
        let mut left = match unary {
            Some((operator, precedence)) => {
                proof {
                    lemma_operator_in_range(toks, st0.pos);
                }
                self.lexer.advance();
                match self.parse_arithmetic_expression(precedence, tree, block) {
                    Ok(e) => AbstractSyntaxTree::UnaryExpression(operator, Box::new(e)),
                    Err(err) => return Err(err),
                }
            },
            None => match self.parse_factor(tree, block) {
                Ok(f) => f,
                Err(err) => return Err(err),
            },
        };
        loop
            invariant
                self.wf(),
                tree.wf(),
                self.tokens() == toks,
                toks == old(self).tokens(),
                st0 == old(self).state(old(tree)@),
                block < tree@.len(),
                only_block_changes(st0.tree, tree@, block as int),
                keeps_prefix(st0.diagnostics, self.diagnostics_model()),
                st0.pos < self.position() <= toks.len(),
                arithmetic_expression(toks, block as int, parent_precedence as nat, st0)
                    == binary_tail(toks, block as int, parent_precedence as nat, left, self.state(tree@)),
            decreases toks.len() - self.position(),
        {
            match self.match_operator(0) {
                Some((operator, length)) => {
                    let precedence = operator.get_binary_precedence();
                    if precedence <= parent_precedence {
                        return Ok(left);
                    }
                    proof {
                        lemma_operator_in_range(toks, self.position());
                    }
                    self.lexer.advance_by(length);
                    let right = match self.parse_arithmetic_expression(precedence, tree, block) {
                        Ok(e) => e,
                        Err(err) => return Err(err),
                    };
                    left = AbstractSyntaxTree::BinaryExpression(Box::new(left), operator, Box::new(right));
                },
                None => {
                    return Ok(left);
                },
            }
        }
    }

    pub fn parse_factor(&mut self, tree: &mut ScopeTree, block: usize) -> (r: Result<
        AbstractSyntaxTree,
        CompilerError,
    >)
        requires
            old(self).wf(),
            old(tree).wf(),
            block < old(tree)@.len(),
        ensures
            final(self).wf(),
            final(tree).wf(),
            final(self).tokens() == old(self).tokens(),
            only_block_changes(old(tree)@, final(tree)@, block as int),
            keeps_prefix(old(self).diagnostics_model(), final(self).diagnostics_model()),
            old(self).position() <= final(self).position(),
            r is Ok ==> old(self).position() < final(self).position(),
            delivers(
                factor(old(self).tokens(), block as int, old(self).state(old(tree)@)),
                r,
                final(self).state(final(tree)@),
            ),
        decreases old(self).tokens().len() - old(self).position(), 0int,
    {
        let token = self.lexer.get_current_token_and_advance();
        let line = token.line;
        let column = token.column;
        match token.kind {
            TokenKind::LiteralToken(value) => Ok(AbstractSyntaxTree::Literal(value)),
            TokenKind::IdentifierToken(name) => Ok(AbstractSyntaxTree::Identifier(name)),
            TokenKind::SymbolToken(Symbol::OpenParenthesis) => {
                let expression = match self.parse_expression(tree, block) {
                    Ok(e) => e,
                    Err(err) => return Err(err),
                };
                let next_token = self.lexer.get_current_token_and_advance();
                match next_token.kind {
                    TokenKind::SymbolToken(Symbol::CloseParenthesis) => Ok(
                        AbstractSyntaxTree::ParenthesizedExpression(Box::new(expression)),
                    ),
                    _ => Err(
                        CompilerError::UnexpectedToken(
                            TokenKind::SymbolToken(Symbol::CloseParenthesis),
                            line,
                            column,
                        ),
                    ),
                }
            },
            TokenKind::SymbolToken(Symbol::CloseParenthesis) => Err(
                CompilerError::UnexpectedToken(
                    TokenKind::SymbolToken(Symbol::CloseParenthesis),
                    line,
                    column,
                ),
            ),
            TokenKind::SymbolToken(symbol) => Err(
                CompilerError::NotYetSupported(TokenKind::SymbolToken(symbol), line, column),
            ),
            kind => Err(CompilerError::UnexpectedToken(kind, line, column)),
        }
    }

    /// Statements of block `block` up to the end of input, and inside braces up to `}`.
    fn parse_statements(&mut self, tree: &mut ScopeTree, block: usize, nested: bool) -> (r: Result<
        Vec<AbstractSyntaxTree>,
        CompilerError,
    >)
        requires
            old(self).wf(),
            old(tree).wf(),
            block < old(tree)@.len(),
        ensures
            final(self).wf(),
            final(tree).wf(),
            final(self).tokens() == old(self).tokens(),
            only_block_changes(old(tree)@, final(tree)@, block as int),
            keeps_prefix(old(self).diagnostics_model(), final(self).diagnostics_model()),
            final(self).state(final(tree)@) == statements(
                old(self).tokens(),
                block as int,
                nested,
                old(self).state(old(tree)@),
            ).1,
            match statements(old(self).tokens(), block as int, nested, old(self).state(old(tree)@)).0 {
                Ok(stmts) => r is Ok && r.unwrap()@ == stmts,
                Err(err) => r == Err::<Vec<AbstractSyntaxTree>, CompilerError>(err),
            },
    {
        let ghost toks = self.tokens();
        let ghost st0 = self.state(tree@);
        let mut stmts: Vec<AbstractSyntaxTree> = Vec::new();
        loop
            invariant
                self.wf(),
                tree.wf(),
                self.tokens() == toks,
                toks == old(self).tokens(),
                st0 == old(self).state(old(tree)@),
                block < tree@.len(),
                only_block_changes(st0.tree, tree@, block as int),
                keeps_prefix(st0.diagnostics, self.diagnostics_model()),
                statements(toks, block as int, nested, st0).1 == statements(
                    toks,
                    block as int,
                    nested,
                    self.state(tree@),
                ).1,
                statements(toks, block as int, nested, st0).0 == match statements(
                    toks,
                    block as int,
                    nested,
                    self.state(tree@),
                ).0 {
                    Ok(rest) => Ok(stmts@ + rest),
                    Err(err) => Err(err),
                },
            decreases toks.len() - self.position(),
        {
            let stop = match &self.lexer.get_current_token().kind {
                TokenKind::EndOfFileToken => true,
                TokenKind::SymbolToken(Symbol::CloseCurlyBracket) => nested,
                _ => false,
            };
            if stop {
                assert(stmts@ + Seq::<AbstractSyntaxTree>::empty() =~= stmts@);
                return Ok(stmts);
            }
            let ghost before = self.state(tree@);
            match self.parse_expression(tree, block) {
                Ok(statement) => {
                    let ghost prev = stmts@;
                    stmts.push(statement);
                    proof {
                        match statements(toks, block as int, nested, self.state(tree@)).0 {
                            Ok(rest) => {
                                assert(prev + (seq![statement] + rest) =~= stmts@ + rest);
                            },
                            Err(err) => {},
                        }
                    }
                },
                Err(err) => return Err(err),
            }
        }
    }

    /// A braced block under block `parent`; returns the new block's handle. A missing brace is
    /// passed over with an advisory. The blocks that were there before keep what they held.
    pub fn parse_block(&mut self, tree: &mut ScopeTree, parent: usize) -> (r: Result<
        usize,
        CompilerError,
    >)
        requires
            old(self).wf(),
            old(tree).wf(),
            parent < old(tree)@.len(),
        ensures
            final(self).wf(),
            final(tree).wf(),
            final(self).tokens() == old(self).tokens(),
            keeps_prefix(old(self).diagnostics_model(), final(self).diagnostics_model()),
            old(tree)@.len() < final(tree)@.len(),
            forall|i: int| 0 <= i < old(tree)@.len() ==> final(tree)@[i] == old(tree)@[i],
            final(self).state(final(tree)@) == braced_block(
                old(self).tokens(),
                parent as int,
                old(self).state(old(tree)@),
            ).1,
            match braced_block(old(self).tokens(), parent as int, old(self).state(old(tree)@)).0 {
                Ok(child) => r == Ok::<usize, CompilerError>(child as usize),
                Err(err) => r == Err::<usize, CompilerError>(err),
            },
    {
        self.match_token(Symbol::OpenCurlyBracket);
        let child = tree.add_block(parent);
        let stmts = match self.parse_statements(tree, child, true) {
            Ok(s) => s,
            Err(err) => return Err(err),
        };
        self.match_token(Symbol::CloseCurlyBracket);
        tree.set_statements(child, stmts);
        Ok(child)
    }

    /// The whole remaining input as the statements of a fresh global block (handle 0). The
    /// advisories raised on the way are in `diagnostics`, whether the parse succeeds or not.
    pub fn parse(&mut self) -> (r: Result<ScopeTree, CompilerError>)
        requires
            old(self).wf(),
        ensures
            final(self).wf(),
            final(self).tokens() == old(self).tokens(),
            keeps_prefix(old(self).diagnostics_model(), final(self).diagnostics_model()),
            ({
                let (expected, st) = program(
                    old(self).tokens(),
                    old(self).position(),
                    old(self).diagnostics_model(),
                );
                &&& final(self).position() == st.pos
                &&& final(self).diagnostics_model() == st.diagnostics
                &&& match expected {
                    Ok(_) => r is Ok && r.unwrap().wf() && r.unwrap()@ == st.tree,
                    Err(err) => r is Err && r->Err_0 == err,
                }
            }),
    {
        let mut tree = ScopeTree::new();
        let stmts = match self.parse_statements(&mut tree, 0, false) {
            Ok(s) => s,
            Err(err) => return Err(err),
        };
        tree.set_statements(0, stmts);
        Ok(tree)
    }
}

/// Applies the rules of `mutable name <op> expression` in block `block`: binds the name as
/// mutable in that block's own table, or reports why the statement is refused. On an error the
/// tree and the advisories are left as they were.
pub fn handle_mutable_assignment(
    variable_name: &String,
    operator: Operator,
    expression: AbstractSyntaxTree,
    tree: &mut ScopeTree,
    block: usize,
    diagnostics: &mut Vec<Diagnostic>,
) -> (r: Result<AbstractSyntaxTree, CompilerError>)
    requires
        old(tree).wf(),
        block < old(tree)@.len(),
    ensures
        final(tree).wf(),
        final(tree)@.len() == old(tree)@.len(),
        match mutable_assignment(
            *variable_name,
            operator,
            expression,
            block as int,
            old(tree)@,
            old(diagnostics)@,
        ) {
            Ok((node, t, d)) => r == Ok::<AbstractSyntaxTree, CompilerError>(node)
                && final(tree)@ == t && final(diagnostics)@ == d,
            Err(err) => r == Err::<AbstractSyntaxTree, CompilerError>(err) && final(tree)@ == old(tree)@
                && final(diagnostics)@ == old(diagnostics)@,
        },
{
    match operator {
        Operator::AssignmentOperator(kind) => {
            match tree.get_symbol(block, variable_name) {
                Some(old_variable) => {
                    if old_variable.is_mutable() {
                        diagnostics.push(Diagnostic::RedundantMutableKeyword(variable_name.clone()));
                        let value = match kind {
                            Assignment::SimpleAssignment => DataType::InternalUndefined,
                            _ => old_variable.value,
                        };
                        tree.add_symbol(block, variable_name.clone(), Variable::new_mutable(value));
                    } else {
                        return Err(CompilerError::CannotConvertFromImmutableToMutable);
                    }
                },
                None => {
                    match kind {
                        Assignment::SimpleAssignment => {
                            tree.add_symbol(
                                block,
                                variable_name.clone(),
                                Variable::new_mutable(DataType::InternalUndefined),
                            );
                        },
                        _ => {
                            return Err(CompilerError::UndefinedVariable(variable_name.clone()));
                        },
                    }
                },
            }
            Ok(
                AbstractSyntaxTree::AssignmentExpression(
                    variable_name.clone(),
                    operator,
                    Box::new(expression),
                ),
            )
        },
        _ => Err(CompilerError::InvalidOperationAsAssignmentOperation),
    }
}

} // verus!
