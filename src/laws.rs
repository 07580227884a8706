use vstd::prelude::*;

use crate::ast::AbstractSyntaxTree;
use crate::block::{lookup, tree_wf, BlockModel};
use crate::datatypes::{DataType, Variable};
use crate::errors::{CompilerError, Diagnostic};
use crate::block::{bind, empty_block, with_statements};
use crate::grammar::{
    arithmetic_expression, assignment_expression, at_pos, binary_tail, equals_form_operator,
    factor, mutable_assignment, mutable_declaration, operator_at, program, single_symbol_operator,
    statements, ParseState,
};
use crate::lexer::{advanced, token_at};
use crate::operators::{Arithmetic, Assignment, Operator, Relational};
use crate::token::{Keyword, Symbol, Token, TokenKind};

verus! {

/// A lead operator symbol followed by `=` reads as its `=` form and takes two tokens; alone, or
/// followed by a token that extends no operator, it reads as its one-symbol form and takes one.
pub proof fn law_two_token_operators(lead: Token, next: Token)
    requires
        lead.kind matches TokenKind::SymbolToken(s) && single_symbol_operator(s) is Some,
    ensures
        ({
            let s = lead.kind->SymbolToken_0;
            &&& next.kind == TokenKind::SymbolToken(Symbol::Equals) ==> operator_at(
                seq![lead, next],
                0,
            ) == Some((equals_form_operator(s).unwrap(), 2nat))
            &&& operator_at(seq![lead], 0) == Some((single_symbol_operator(s).unwrap(), 1nat))
            &&& (next.kind != TokenKind::SymbolToken(Symbol::Equals) && next.kind
                != TokenKind::SymbolToken(Symbol::Asterisk)) ==> operator_at(seq![lead, next], 0)
                == Some((single_symbol_operator(s).unwrap(), 1nat))
        }),
{
}

/// `*` `*` reads as exponentiation over two tokens, and `*` `*` `=` as its assignment over three;
/// `is` `not` reads as inequality over two tokens and `is` alone as equality.
pub proof fn law_longer_operators(a: Token, b: Token, c: Token)
    ensures
        (a.kind == TokenKind::SymbolToken(Symbol::Asterisk) && b.kind == TokenKind::SymbolToken(
            Symbol::Asterisk,
        )) ==> {
            &&& operator_at(seq![a, b], 0) == Some(
                (Operator::ArithmeticOperator(Arithmetic::Exponentiation), 2nat),
            )
            &&& c.kind == TokenKind::SymbolToken(Symbol::Equals) ==> operator_at(seq![a, b, c], 0)
                == Some((Operator::AssignmentOperator(Assignment::ExponentiationAssignment), 3nat))
        },
        (a.kind == TokenKind::KeywordToken(Keyword::Is)) ==> {
            &&& operator_at(seq![a], 0) == Some(
                (Operator::RelationalOperator(Relational::Equality), 1nat),
            )
            &&& b.kind == TokenKind::KeywordToken(Keyword::Not) ==> operator_at(seq![a, b], 0)
                == Some((Operator::RelationalOperator(Relational::Inequality), 2nat))
        },
{
}

/// Writing `mutable name = ...` twice for a name that was not bound: both statements succeed,
/// the first without an advisory, the second with exactly one.
pub proof fn law_redundant_mutable_is_advisory(
    name: String,
    first: AbstractSyntaxTree,
    second: AbstractSyntaxTree,
    b: int,
    tree: Seq<BlockModel>,
    diagnostics: Seq<Diagnostic>,
)
    requires
        0 <= b < tree.len(),
        lookup(tree, b, name@) is None,
    ensures
        ({
            let op = Operator::AssignmentOperator(Assignment::SimpleAssignment);
            let r1 = mutable_assignment(name, op, first, b, tree, diagnostics);
            &&& r1 is Ok
            &&& r1.unwrap().2 == diagnostics
            &&& {
                let r2 = mutable_assignment(name, op, second, b, r1.unwrap().1, r1.unwrap().2);
                &&& r2 is Ok
                &&& r2.unwrap().2 == diagnostics.push(Diagnostic::RedundantMutableKeyword(name))
            }
        }),
{
}

/// A name whose binding in scope is immutable cannot be made mutable by any assignment form.
pub proof fn law_immutable_stays_immutable(
    name: String,
    kind: Assignment,
    expr: AbstractSyntaxTree,
    b: int,
    tree: Seq<BlockModel>,
    diagnostics: Seq<Diagnostic>,
)
    requires
        lookup(tree, b, name@) matches Some(v) && !v.mutable,
    ensures
        mutable_assignment(name, Operator::AssignmentOperator(kind), expr, b, tree, diagnostics)
            == Err::<(AbstractSyntaxTree, Seq<BlockModel>, Seq<Diagnostic>), CompilerError>(
            CompilerError::CannotConvertFromImmutableToMutable,
        ),
{
}

/// A compound assignment after `mutable` on a name bound nowhere in scope is an undefined
/// variable.
pub proof fn law_compound_needs_binding(
    name: String,
    kind: Assignment,
    expr: AbstractSyntaxTree,
    b: int,
    tree: Seq<BlockModel>,
    diagnostics: Seq<Diagnostic>,
)
    requires
        kind != Assignment::SimpleAssignment,
        lookup(tree, b, name@) is None,
    ensures
        mutable_assignment(name, Operator::AssignmentOperator(kind), expr, b, tree, diagnostics)
            == Err::<(AbstractSyntaxTree, Seq<BlockModel>, Seq<Diagnostic>), CompilerError>(
            CompilerError::UndefinedVariable(name),
        ),
{
}

/// A binding of a parent block is what `mutable` handling sees in a child block that does not
/// bind the name itself: an immutable one is refused, a mutable one is accepted, and either way
/// the parent's table is left as it was.
pub proof fn law_scope_chaining(
    name: String,
    kind: Assignment,
    expr: AbstractSyntaxTree,
    b: int,
    tree: Seq<BlockModel>,
    diagnostics: Seq<Diagnostic>,
)
    requires
        tree_wf(tree),
        0 <= b < tree.len(),
        tree[b].parent is Some,
        !tree[b].symbols.contains_key(name@),
        lookup(tree, tree[b].parent.unwrap() as int, name@) is Some,
    ensures
        ({
            let p = tree[b].parent.unwrap() as int;
            let v = lookup(tree, p, name@).unwrap();
            let r = mutable_assignment(
                name,
                Operator::AssignmentOperator(kind),
                expr,
                b,
                tree,
                diagnostics,
            );
            &&& lookup(tree, b, name@) == Some(v)
            &&& !v.mutable ==> r == Err::<
                (AbstractSyntaxTree, Seq<BlockModel>, Seq<Diagnostic>),
                CompilerError,
            >(CompilerError::CannotConvertFromImmutableToMutable)
            &&& v.mutable ==> r is Ok && r.unwrap().1[p] == tree[p]
                && r.unwrap().1[b].symbols.contains_key(name@)
        }),
{
}

/// A literal token parses as a literal node and an identifier token as an identifier node, each
/// taking one token; an opening parenthesis whose inner expression is followed by `)` parses as
/// a parenthesized node around exactly that inner expression.
pub proof fn law_factor_shape(toks: Seq<Token>, b: int, st: ParseState)
    requires
        0 <= st.pos <= toks.len(),
    ensures
        ({
            let kind = token_at(toks, st.pos).kind;
            let st1 = at_pos(st, advanced(toks, st.pos, 1));
            &&& kind matches TokenKind::LiteralToken(v) ==> factor(toks, b, st) == (
                Ok::<AbstractSyntaxTree, CompilerError>(AbstractSyntaxTree::Literal(v)),
                st1,
            )
            &&& kind matches TokenKind::IdentifierToken(n) ==> factor(toks, b, st) == (
                Ok::<AbstractSyntaxTree, CompilerError>(AbstractSyntaxTree::Identifier(n)),
                st1,
            )
            &&& kind == TokenKind::SymbolToken(Symbol::OpenParenthesis) ==> match assignment_expression(
                toks,
                b,
                st1,
            ).0 {
                Ok(inner) => {
                    let st2 = assignment_expression(toks, b, st1).1;
                    token_at(toks, st2.pos).kind == TokenKind::SymbolToken(Symbol::CloseParenthesis)
                        ==> factor(toks, b, st) == (
                        Ok::<AbstractSyntaxTree, CompilerError>(
                            AbstractSyntaxTree::ParenthesizedExpression(Box::new(inner)),
                        ),
                        at_pos(st2, advanced(toks, st2.pos, 1)),
                    )
                },
                Err(_) => true,
            }
        }),
{
}

/// The program `mutable x = v1 mutable x = v2`, for any name and literal values, parses into the
/// two assignments with exactly one advisory, raised by the second.
pub proof fn law_program_redundant_mutable(
    x: String,
    v1: DataType,
    v2: DataType,
    toks: Seq<Token>,
)
    requires
        toks.len() == 8,
        toks[0].kind == TokenKind::KeywordToken(Keyword::Mutable),
        toks[1].kind == TokenKind::IdentifierToken(x),
        toks[2].kind == TokenKind::SymbolToken(Symbol::Equals),
        toks[3].kind == TokenKind::LiteralToken(v1),
        toks[4].kind == TokenKind::KeywordToken(Keyword::Mutable),
        toks[5].kind == TokenKind::IdentifierToken(x),
        toks[6].kind == TokenKind::SymbolToken(Symbol::Equals),
        toks[7].kind == TokenKind::LiteralToken(v2),
    ensures
        ({
            let set = Operator::AssignmentOperator(Assignment::SimpleAssignment);
            let r = program(toks, 0, Seq::empty());
            &&& r.0 is Ok
            &&& r.1.tree[0].statements == seq![
                AbstractSyntaxTree::AssignmentExpression(
                    x,
                    set,
                    Box::new(AbstractSyntaxTree::Literal(v1)),
                ),
                AbstractSyntaxTree::AssignmentExpression(
                    x,
                    set,
                    Box::new(AbstractSyntaxTree::Literal(v2)),
                ),
            ]
            &&& r.1.diagnostics == seq![Diagnostic::RedundantMutableKeyword(x)]
        }),
{
    let set = Operator::AssignmentOperator(Assignment::SimpleAssignment);
    let lit1 = AbstractSyntaxTree::Literal(v1);
    let lit2 = AbstractSyntaxTree::Literal(v2);
    let n1 = AbstractSyntaxTree::AssignmentExpression(x, set, Box::new(lit1));
    let n2 = AbstractSyntaxTree::AssignmentExpression(x, set, Box::new(lit2));
    let mv = Variable { value: DataType::InternalUndefined, mutable: true };
    let tree0 = seq![empty_block(None)];
    let tree1 = bind(tree0, 0, x@, mv);
    let warned = seq![Diagnostic::RedundantMutableKeyword(x)];
    let st0 = ParseState { pos: 0, tree: tree0, diagnostics: Seq::empty() };
    let st4 = ParseState { pos: 4, tree: tree1, diagnostics: Seq::empty() };
    let tree2 = bind(tree1, 0, x@, mv);
    let st8 = ParseState { pos: 8, tree: tree2, diagnostics: warned };

    // First statement.
    assert(operator_at(toks, 2) == Some((set, 1nat)));
    assert(operator_at(toks, 3) is None);
    assert(factor(toks, 0, at_pos(st0, 3)) == (Ok::<AbstractSyntaxTree, CompilerError>(lit1), at_pos(st0, 4)));
    assert(operator_at(toks, 4) is None);
    assert(binary_tail(toks, 0, 0, lit1, at_pos(st0, 4)) == (Ok::<AbstractSyntaxTree, CompilerError>(lit1), at_pos(st0, 4)));
    assert(arithmetic_expression(toks, 0, 0, at_pos(st0, 3)) == (Ok::<AbstractSyntaxTree, CompilerError>(lit1), at_pos(st0, 4)));
    assert(assignment_expression(toks, 0, at_pos(st0, 3)) == (Ok::<AbstractSyntaxTree, CompilerError>(lit1), at_pos(st0, 4)));
    assert(lookup(tree0, 0, x@) is None);
    assert(mutable_declaration(toks, 0, st0) == (Ok::<AbstractSyntaxTree, CompilerError>(n1), st4));
    assert(assignment_expression(toks, 0, st0) == (Ok::<AbstractSyntaxTree, CompilerError>(n1), st4));

    // Second statement.
    assert(operator_at(toks, 6) == Some((set, 1nat)));
    assert(operator_at(toks, 7) is None);
    assert(factor(toks, 0, at_pos(st4, 7)) == (Ok::<AbstractSyntaxTree, CompilerError>(lit2), at_pos(st4, 8)));
    assert(operator_at(toks, 8) is None);
    assert(binary_tail(toks, 0, 0, lit2, at_pos(st4, 8)) == (Ok::<AbstractSyntaxTree, CompilerError>(lit2), at_pos(st4, 8)));
    assert(arithmetic_expression(toks, 0, 0, at_pos(st4, 7)) == (Ok::<AbstractSyntaxTree, CompilerError>(lit2), at_pos(st4, 8)));
    assert(assignment_expression(toks, 0, at_pos(st4, 7)) == (Ok::<AbstractSyntaxTree, CompilerError>(lit2), at_pos(st4, 8)));
    assert(lookup(tree1, 0, x@) == Some(mv));
    assert(mutable_declaration(toks, 0, st4) == (Ok::<AbstractSyntaxTree, CompilerError>(n2), st8));
    assert(assignment_expression(toks, 0, st4) == (Ok::<AbstractSyntaxTree, CompilerError>(n2), st8));

    // The statement list.
    assert(statements(toks, 0, false, st8) == (Ok::<Seq<AbstractSyntaxTree>, CompilerError>(Seq::empty()), st8));
    assert(statements(toks, 0, false, st4) == (Ok::<Seq<AbstractSyntaxTree>, CompilerError>(seq![n2] + Seq::empty()), st8));
    assert(seq![n2] + Seq::<AbstractSyntaxTree>::empty() =~= seq![n2]);
    assert(statements(toks, 0, false, st0) == (Ok::<Seq<AbstractSyntaxTree>, CompilerError>(seq![n1] + seq![n2]), st8));
    assert(seq![n1] + seq![n2] =~= seq![n1, n2]);
    assert(with_statements(tree2, 0, seq![n1, n2])[0].statements == seq![n1, n2]);
}

/// The program `mutable y += v`, for any name and literal value, fails with an undefined
/// variable naming `y`, and leaves `y` unbound and no advisory behind.
pub proof fn law_program_compound_on_unbound(y: String, v: DataType, toks: Seq<Token>)
    requires
        toks.len() == 5,
        toks[0].kind == TokenKind::KeywordToken(Keyword::Mutable),
        toks[1].kind == TokenKind::IdentifierToken(y),
        toks[2].kind == TokenKind::SymbolToken(Symbol::Plus),
        toks[3].kind == TokenKind::SymbolToken(Symbol::Equals),
        toks[4].kind == TokenKind::LiteralToken(v),
    ensures
        program(toks, 0, Seq::empty()).0 == Err::<(), CompilerError>(
            CompilerError::UndefinedVariable(y),
        ),
        program(toks, 0, Seq::empty()).1.tree == seq![empty_block(None)],
        program(toks, 0, Seq::empty()).1.diagnostics == Seq::<Diagnostic>::empty(),
{
    let add_set = Operator::AssignmentOperator(Assignment::AdditionAssignment);
    let lit = AbstractSyntaxTree::Literal(v);
    let st0 = ParseState { pos: 0, tree: seq![empty_block(None)], diagnostics: Seq::empty() };
    let expected = (Ok::<AbstractSyntaxTree, CompilerError>(lit), at_pos(st0, 5));
    assert(operator_at(toks, 2) == Some((add_set, 2nat)));
    assert(operator_at(toks, 4) is None);
    assert(factor(toks, 0, at_pos(st0, 4)) == expected);
    assert(operator_at(toks, 5) is None);
    assert(binary_tail(toks, 0, 0, lit, at_pos(st0, 5)) == expected);
    assert(arithmetic_expression(toks, 0, 0, at_pos(st0, 4)) == expected);
    assert(assignment_expression(toks, 0, at_pos(st0, 4)) == expected);
    assert(lookup(st0.tree, 0, y@) is None);
    assert(mutable_declaration(toks, 0, st0) == (
        Err::<AbstractSyntaxTree, CompilerError>(CompilerError::UndefinedVariable(y)),
        at_pos(st0, 5),
    ));
    assert(statements(toks, 0, false, st0) == (
        Err::<Seq<AbstractSyntaxTree>, CompilerError>(CompilerError::UndefinedVariable(y)),
        at_pos(st0, 5),
    ));
}

/// A program of one literal or identifier token is one statement of that node's kind; the
/// program `( name )` is one parenthesized node around that identifier.
pub proof fn law_program_shapes(t: Token, open: Token, inner: Token, close: Token)
    ensures
        t.kind matches TokenKind::LiteralToken(v) ==> program(seq![t], 0, Seq::empty()).0 is Ok
            && program(seq![t], 0, Seq::empty()).1.tree[0].statements == seq![
            AbstractSyntaxTree::Literal(v),
        ],
        t.kind matches TokenKind::IdentifierToken(n) ==> program(seq![t], 0, Seq::empty()).0 is Ok
            && program(seq![t], 0, Seq::empty()).1.tree[0].statements == seq![
            AbstractSyntaxTree::Identifier(n),
        ],
        (open.kind == TokenKind::SymbolToken(Symbol::OpenParenthesis) && close.kind
            == TokenKind::SymbolToken(Symbol::CloseParenthesis)) ==> (inner.kind matches TokenKind::IdentifierToken(
            n,
        ) ==> program(seq![open, inner, close], 0, Seq::empty()).0 is Ok && program(
            seq![open, inner, close],
            0,
            Seq::empty(),
        ).1.tree[0].statements == seq![
            AbstractSyntaxTree::ParenthesizedExpression(
                Box::new(AbstractSyntaxTree::Identifier(n)),
            ),
        ]),
{
    let st0 = ParseState { pos: 0, tree: seq![empty_block(None)], diagnostics: Seq::empty() };
    let one = seq![t];
    if t.kind is LiteralToken || t.kind is IdentifierToken {
        let node = match t.kind {
            TokenKind::LiteralToken(v) => AbstractSyntaxTree::Literal(v),
            TokenKind::IdentifierToken(n) => AbstractSyntaxTree::Identifier(n),
            _ => AbstractSyntaxTree::Literal(DataType::InternalUndefined),
        };
        let done = (Ok::<AbstractSyntaxTree, CompilerError>(node), at_pos(st0, 1));
        assert(operator_at(one, 0) is None);
        assert(operator_at(one, 1) is None);
        assert(factor(one, 0, st0) == done);
        assert(binary_tail(one, 0, 0, node, at_pos(st0, 1)) == done);
        assert(arithmetic_expression(one, 0, 0, st0) == done);
        assert(assignment_expression(one, 0, st0) == done);
        assert(statements(one, 0, false, at_pos(st0, 1)) == (Ok::<Seq<AbstractSyntaxTree>, CompilerError>(Seq::empty()), at_pos(st0, 1)));
        assert(seq![node] + Seq::<AbstractSyntaxTree>::empty() =~= seq![node]);
    }
    let three = seq![open, inner, close];
    if open.kind == TokenKind::SymbolToken(Symbol::OpenParenthesis) && close.kind
        == TokenKind::SymbolToken(Symbol::CloseParenthesis) && inner.kind is IdentifierToken {
        let id = AbstractSyntaxTree::Identifier(inner.kind->IdentifierToken_0);
        let node = AbstractSyntaxTree::ParenthesizedExpression(Box::new(id));
        let inside = (Ok::<AbstractSyntaxTree, CompilerError>(id), at_pos(st0, 2));
        let done = (Ok::<AbstractSyntaxTree, CompilerError>(node), at_pos(st0, 3));
        assert(operator_at(three, 0) is None);
        assert(operator_at(three, 1) is None);
        assert(operator_at(three, 2) is None);
        assert(operator_at(three, 3) is None);
        assert(factor(three, 0, at_pos(st0, 1)) == inside);
        assert(binary_tail(three, 0, 0, id, at_pos(st0, 2)) == inside);
        assert(arithmetic_expression(three, 0, 0, at_pos(st0, 1)) == inside);
        assert(assignment_expression(three, 0, at_pos(st0, 1)) == inside);
        assert(factor(three, 0, st0) == done);
        assert(binary_tail(three, 0, 0, node, at_pos(st0, 3)) == done);
        assert(arithmetic_expression(three, 0, 0, st0) == done);
        assert(assignment_expression(three, 0, st0) == done);
        assert(statements(three, 0, false, at_pos(st0, 3)) == (Ok::<Seq<AbstractSyntaxTree>, CompilerError>(Seq::empty()), at_pos(st0, 3)));
        assert(seq![node] + Seq::<AbstractSyntaxTree>::empty() =~= seq![node]);
    }
}

} // verus!
