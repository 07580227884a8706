use exprparse::ast::AbstractSyntaxTree;
use exprparse::block::ScopeTree;
use exprparse::datatypes::{DataType, Variable};
use exprparse::errors::{CompilerError, Diagnostic};
use exprparse::lexer::Lexer;
use exprparse::operators::{Arithmetic, Assignment, Logical, Operator, Relational};
use exprparse::parser::{handle_mutable_assignment, Parser};
use exprparse::token::{Keyword, Symbol, Token, TokenKind};

fn tokens(kinds: Vec<TokenKind>) -> Vec<Token> {
    let mut out = Vec::new();
    let mut column = 1;
    for kind in kinds {
        out.push(Token::new(kind, 1, column));
        column += 2;
    }
    out
}

fn sym(s: Symbol) -> TokenKind {
    TokenKind::SymbolToken(s)
}

fn kw(k: Keyword) -> TokenKind {
    TokenKind::KeywordToken(k)
}

fn id(name: &str) -> TokenKind {
    TokenKind::IdentifierToken(name.to_string())
}

fn num(v: i64) -> TokenKind {
    TokenKind::LiteralToken(DataType::Integer(v))
}

fn parser_for(kinds: Vec<TokenKind>) -> Parser {
    Parser::new(Lexer::new(tokens(kinds)))
}

fn ident_node(name: &str) -> AbstractSyntaxTree {
    AbstractSyntaxTree::Identifier(name.to_string())
}

fn lit_node(v: i64) -> AbstractSyntaxTree {
    AbstractSyntaxTree::Literal(DataType::Integer(v))
}

fn binary(l: AbstractSyntaxTree, op: Operator, r: AbstractSyntaxTree) -> AbstractSyntaxTree {
    AbstractSyntaxTree::BinaryExpression(Box::new(l), op, Box::new(r))
}

fn assign(name: &str, op: Operator, value: AbstractSyntaxTree) -> AbstractSyntaxTree {
    AbstractSyntaxTree::AssignmentExpression(name.to_string(), op, Box::new(value))
}

const ADD: Operator = Operator::ArithmeticOperator(Arithmetic::Addition);
const SUB: Operator = Operator::ArithmeticOperator(Arithmetic::Subtraction);
const MUL: Operator = Operator::ArithmeticOperator(Arithmetic::Multiplication);
const POW: Operator = Operator::ArithmeticOperator(Arithmetic::Exponentiation);
const SET: Operator = Operator::AssignmentOperator(Assignment::SimpleAssignment);
const ADD_SET: Operator = Operator::AssignmentOperator(Assignment::AdditionAssignment);

fn parse_ok(kinds: Vec<TokenKind>) -> (ScopeTree, Vec<Diagnostic>) {
    let mut p = parser_for(kinds);
    let tree = p.parse().expect("parse succeeds");
    (tree, p.diagnostics().clone())
}

fn parse_err(kinds: Vec<TokenKind>) -> CompilerError {
    let mut p = parser_for(kinds);
    match p.parse() {
        Ok(_) => panic!("parse was expected to fail"),
        Err(e) => e,
    }
}

fn operator_of(kinds: Vec<TokenKind>) -> Option<(Operator, usize)> {
    parser_for(kinds).match_operator(0)
}

#[test]
fn two_token_operator_pairs() {
    let table = vec![
        (Symbol::Equals, Operator::RelationalOperator(Relational::Equality), SET),
        (Symbol::Plus, ADD_SET, ADD),
        (Symbol::Minus, Operator::AssignmentOperator(Assignment::SubtractionAssignment), SUB),
        (Symbol::Asterisk, Operator::AssignmentOperator(Assignment::MultiplicationAssignment), MUL),
        (
            Symbol::Slash,
            Operator::AssignmentOperator(Assignment::DivisionAssignment),
            Operator::ArithmeticOperator(Arithmetic::Division),
        ),
        (
            Symbol::Percent,
            Operator::AssignmentOperator(Assignment::ModuloAssignment),
            Operator::ArithmeticOperator(Arithmetic::Modulo),
        ),
        (
            Symbol::Exclamation,
            Operator::RelationalOperator(Relational::Inequality),
            Operator::LogicalOperator(Logical::Not),
        ),
        (
            Symbol::GreaterThan,
            Operator::RelationalOperator(Relational::GreaterThanOrEquals),
            Operator::RelationalOperator(Relational::GreaterThan),
        ),
        (
            Symbol::LessThan,
            Operator::RelationalOperator(Relational::LessThanOrEquals),
            Operator::RelationalOperator(Relational::LessThan),
        ),
    ];
    for (lead, paired, single) in table {
        assert_eq!(operator_of(vec![sym(lead), sym(Symbol::Equals)]), Some((paired, 2)));
        assert_eq!(operator_of(vec![sym(lead)]), Some((single, 1)));
        assert_eq!(operator_of(vec![sym(lead), id("a")]), Some((single, 1)));
    }
}

#[test]
fn three_token_and_keyword_operators() {
    let star = sym(Symbol::Asterisk);
    assert_eq!(operator_of(vec![star.clone(), star.clone()]), Some((POW, 2)));
    assert_eq!(
        operator_of(vec![star.clone(), star.clone(), sym(Symbol::Equals)]),
        Some((Operator::AssignmentOperator(Assignment::ExponentiationAssignment), 3))
    );
    assert_eq!(
        operator_of(vec![kw(Keyword::Is), kw(Keyword::Not)]),
        Some((Operator::RelationalOperator(Relational::Inequality), 2))
    );
    assert_eq!(
        operator_of(vec![kw(Keyword::Is), id("a")]),
        Some((Operator::RelationalOperator(Relational::Equality), 1))
    );
    assert_eq!(
        operator_of(vec![kw(Keyword::Xor)]),
        Some((Operator::LogicalOperator(Logical::Xor), 1))
    );
    assert_eq!(operator_of(vec![kw(Keyword::Mutable)]), None);
    assert_eq!(operator_of(vec![sym(Symbol::OpenParenthesis)]), None);
    assert_eq!(operator_of(vec![id("a")]), None);
    assert_eq!(operator_of(vec![]), None);
}

#[test]
fn operator_count_includes_offset() {
    let p = parser_for(vec![id("x"), sym(Symbol::Plus), sym(Symbol::Equals), num(1)]);
    assert_eq!(p.match_operator(1), Some((ADD_SET, 3)));
}

#[test]
fn precedence_and_left_associativity() {
    let (tree, _) = parse_ok(vec![id("a"), sym(Symbol::Plus), id("b"), sym(Symbol::Asterisk), id("c")]);
    let expected = binary(ident_node("a"), ADD, binary(ident_node("b"), MUL, ident_node("c")));
    assert_eq!(tree.statements(0), &vec![expected]);

    let (tree, _) = parse_ok(vec![id("a"), sym(Symbol::Minus), id("b"), sym(Symbol::Minus), id("c")]);
    let expected = binary(binary(ident_node("a"), SUB, ident_node("b")), SUB, ident_node("c"));
    assert_eq!(tree.statements(0), &vec![expected]);
}

#[test]
fn logical_binds_looser_than_relational() {
    let (tree, _) = parse_ok(vec![
        id("a"),
        kw(Keyword::Or),
        id("b"),
        kw(Keyword::And),
        id("c"),
        sym(Symbol::Equals),
        sym(Symbol::Equals),
        num(1),
    ]);
    let expected = binary(
        ident_node("a"),
        Operator::LogicalOperator(Logical::Or),
        binary(
            ident_node("b"),
            Operator::LogicalOperator(Logical::And),
            binary(ident_node("c"), Operator::RelationalOperator(Relational::Equality), lit_node(1)),
        ),
    );
    assert_eq!(tree.statements(0), &vec![expected]);
}

#[test]
fn unary_minus_below_exponentiation() {
    let star = sym(Symbol::Asterisk);
    let (tree, _) = parse_ok(vec![sym(Symbol::Minus), id("a"), star.clone(), star, id("b")]);
    let expected = AbstractSyntaxTree::UnaryExpression(
        SUB,
        Box::new(binary(ident_node("a"), POW, ident_node("b"))),
    );
    assert_eq!(tree.statements(0), &vec![expected]);
}

#[test]
fn unary_minus_above_multiplication() {
    let (tree, _) = parse_ok(vec![sym(Symbol::Minus), id("a"), sym(Symbol::Asterisk), id("b")]);
    let expected = binary(
        AbstractSyntaxTree::UnaryExpression(SUB, Box::new(ident_node("a"))),
        MUL,
        ident_node("b"),
    );
    assert_eq!(tree.statements(0), &vec![expected]);
}

#[test]
fn redundant_mutable_is_one_advisory() {
    let (tree, diagnostics) = parse_ok(vec![
        kw(Keyword::Mutable),
        id("x"),
        sym(Symbol::Equals),
        num(1),
        kw(Keyword::Mutable),
        id("x"),
        sym(Symbol::Equals),
        num(2),
    ]);
    assert_eq!(
        tree.statements(0),
        &vec![assign("x", SET, lit_node(1)), assign("x", SET, lit_node(2))]
    );
    assert_eq!(diagnostics, vec![Diagnostic::RedundantMutableKeyword("x".to_string())]);
    let x = tree.get_symbol(0, &"x".to_string()).expect("x is bound");
    assert!(x.is_mutable());
}

#[test]
fn first_mutable_declaration_has_no_advisory() {
    let (_, diagnostics) = parse_ok(vec![kw(Keyword::Mutable), id("x"), sym(Symbol::Equals), num(1)]);
    assert!(diagnostics.is_empty());
}

#[test]
fn immutable_binding_cannot_become_mutable() {
    let mut tree = ScopeTree::new();
    tree.add_symbol(0, "x".to_string(), Variable::new_immutable(DataType::Integer(1)));
    let mut p = parser_for(vec![kw(Keyword::Mutable), id("x"), sym(Symbol::Equals), num(2)]);
    assert_eq!(
        p.parse_expression(&mut tree, 0),
        Err(CompilerError::CannotConvertFromImmutableToMutable)
    );
    assert!(!tree.get_symbol(0, &"x".to_string()).unwrap().is_mutable());
}

#[test]
fn plain_assignment_leaves_scope_untouched() {
    // Plain assignment binds nothing, so a later `mutable` declaration of the name is accepted.
    let (tree, diagnostics) = parse_ok(vec![
        id("x"),
        sym(Symbol::Equals),
        num(1),
        kw(Keyword::Mutable),
        id("x"),
        sym(Symbol::Equals),
        num(2),
    ]);
    assert_eq!(tree.statements(0).len(), 2);
    assert!(diagnostics.is_empty());
}

#[test]
fn compound_on_unbound_is_undefined() {
    let err = parse_err(vec![kw(Keyword::Mutable), id("y"), sym(Symbol::Plus), sym(Symbol::Equals), num(1)]);
    assert_eq!(err, CompilerError::UndefinedVariable("y".to_string()));
}

#[test]
fn compound_keeps_stored_value() {
    let mut tree = ScopeTree::new();
    tree.add_symbol(0, "x".to_string(), Variable::new_mutable(DataType::Integer(5)));
    let mut p = parser_for(vec![kw(Keyword::Mutable), id("x"), sym(Symbol::Plus), sym(Symbol::Equals), num(1)]);
    assert_eq!(p.parse_expression(&mut tree, 0), Ok(assign("x", ADD_SET, lit_node(1))));
    assert_eq!(
        tree.get_symbol(0, &"x".to_string()),
        Some(Variable::new_mutable(DataType::Integer(5)))
    );
    assert_eq!(p.diagnostics().len(), 1);
}

#[test]
fn parent_binding_seen_from_child_block() {
    let mut tree = ScopeTree::new();
    tree.add_symbol(0, "y".to_string(), Variable::new_immutable(DataType::Integer(3)));
    let mut p = parser_for(vec![
        sym(Symbol::OpenCurlyBracket),
        kw(Keyword::Mutable),
        id("y"),
        sym(Symbol::Equals),
        num(2),
        sym(Symbol::CloseCurlyBracket),
    ]);
    assert_eq!(p.parse_block(&mut tree, 0), Err(CompilerError::CannotConvertFromImmutableToMutable));
    assert_eq!(tree.len(), 2);
    assert!(!tree.symbols(1).contains(&"y".to_string()));
}

#[test]
fn mutable_parent_binding_rebinds_in_child_only() {
    let mut tree = ScopeTree::new();
    tree.add_symbol(0, "y".to_string(), Variable::new_mutable(DataType::Integer(3)));
    let mut p = parser_for(vec![
        sym(Symbol::OpenCurlyBracket),
        kw(Keyword::Mutable),
        id("y"),
        sym(Symbol::Plus),
        sym(Symbol::Equals),
        num(1),
        sym(Symbol::CloseCurlyBracket),
    ]);
    let child = p.parse_block(&mut tree, 0).expect("block parses");
    assert_eq!(child, 1);
    assert_eq!(tree.parent(child), Some(0));
    assert_eq!(tree.statements(child), &vec![assign("y", ADD_SET, lit_node(1))]);
    assert_eq!(
        tree.symbols(child).get(&"y".to_string()),
        Some(Variable::new_mutable(DataType::Integer(3)))
    );
    assert_eq!(tree.symbols(0).iter().len(), 1);
}

#[test]
fn block_without_braces_is_absorbed() {
    let mut tree = ScopeTree::new();
    let mut p = parser_for(vec![id("a"), sym(Symbol::CloseCurlyBracket), id("b")]);
    let child = p.parse_block(&mut tree, 0).expect("block parses");
    assert_eq!(tree.statements(child), &vec![ident_node("a")]);
    assert_eq!(p.diagnostics(), &vec![Diagnostic::MissingSymbol(Symbol::OpenCurlyBracket, 1, 1)]);
    // The closing brace was consumed; the next statement starts at `b`.
    assert_eq!(p.parse_expression(&mut tree, 0), Ok(ident_node("b")));
}

#[test]
fn missing_close_brace_is_advisory() {
    let mut tree = ScopeTree::new();
    let mut p = parser_for(vec![sym(Symbol::OpenCurlyBracket), id("a")]);
    let child = p.parse_block(&mut tree, 0).expect("block parses");
    assert_eq!(tree.statements(child), &vec![ident_node("a")]);
    assert_eq!(p.diagnostics(), &vec![Diagnostic::MissingSymbol(Symbol::CloseCurlyBracket, 1, 3)]);
}

#[test]
fn factor_shapes() {
    let (tree, _) = parse_ok(vec![num(7)]);
    assert_eq!(tree.statements(0), &vec![lit_node(7)]);
    let (tree, _) = parse_ok(vec![id("v")]);
    assert_eq!(tree.statements(0), &vec![ident_node("v")]);
    let (tree, _) = parse_ok(vec![sym(Symbol::OpenParenthesis), id("v"), sym(Symbol::CloseParenthesis)]);
    assert_eq!(
        tree.statements(0),
        &vec![AbstractSyntaxTree::ParenthesizedExpression(Box::new(ident_node("v")))]
    );
    let text = TokenKind::LiteralToken(DataType::Text("hi".to_string()));
    let (tree, _) = parse_ok(vec![text]);
    assert_eq!(tree.statements(0), &vec![AbstractSyntaxTree::Literal(DataType::Text("hi".to_string()))]);
}

#[test]
fn unclosed_parenthesis_names_the_opening() {
    let err = parse_err(vec![id("q"), sym(Symbol::Plus), sym(Symbol::OpenParenthesis), id("v"), id("w")]);
    assert_eq!(
        err,
        CompilerError::UnexpectedToken(TokenKind::SymbolToken(Symbol::CloseParenthesis), 1, 5)
    );
}

#[test]
fn stray_close_parenthesis() {
    let err = parse_err(vec![sym(Symbol::CloseParenthesis)]);
    assert_eq!(
        err,
        CompilerError::UnexpectedToken(TokenKind::SymbolToken(Symbol::CloseParenthesis), 1, 1)
    );
}

#[test]
fn unsupported_symbol_in_operand_position() {
    let err = parse_err(vec![sym(Symbol::Asterisk), id("a")]);
    assert_eq!(err, CompilerError::NotYetSupported(TokenKind::SymbolToken(Symbol::Asterisk), 1, 1));
}

#[test]
fn keyword_in_operand_position() {
    let err = parse_err(vec![id("a"), sym(Symbol::Plus), kw(Keyword::If)]);
    assert_eq!(err, CompilerError::UnexpectedToken(kw(Keyword::If), 1, 5));
}

#[test]
fn missing_operand_at_end() {
    let err = parse_err(vec![id("a"), sym(Symbol::Plus)]);
    assert_eq!(err, CompilerError::UnexpectedToken(TokenKind::EndOfFileToken, 1, 3));
}

#[test]
fn mutable_without_name() {
    let err = parse_err(vec![kw(Keyword::Mutable), num(1)]);
    assert_eq!(err, CompilerError::InvalidUseOfMutableKeyword);
}

#[test]
fn bare_mutable_unbound_is_uninitialized() {
    let err = parse_err(vec![kw(Keyword::Mutable), id("z")]);
    assert_eq!(err, CompilerError::UnInitializedVariable("z".to_string()));
}

#[test]
fn bare_mutable_on_bound_name() {
    let mut tree = ScopeTree::new();
    tree.add_symbol(0, "z".to_string(), Variable::new_mutable(DataType::Boolean(true)));
    let mut p = parser_for(vec![kw(Keyword::Mutable), id("z")]);
    assert_eq!(
        p.parse_expression(&mut tree, 0),
        Err(CompilerError::CannotConvertFromImmutableToMutable)
    );
}

#[test]
fn relational_operator_after_mutable() {
    let err = parse_err(vec![
        kw(Keyword::Mutable),
        id("x"),
        sym(Symbol::Equals),
        sym(Symbol::Equals),
        num(1),
    ]);
    assert_eq!(err, CompilerError::InvalidOperationAsAssignmentOperation);
}

#[test]
fn plain_assignment_is_right_associative() {
    let (tree, _) = parse_ok(vec![id("x"), sym(Symbol::Equals), id("y"), sym(Symbol::Equals), num(1)]);
    let expected = assign("x", SET, assign("y", SET, lit_node(1)));
    assert_eq!(tree.statements(0), &vec![expected]);
}

#[test]
fn empty_input_gives_empty_program() {
    let (tree, diagnostics) = parse_ok(vec![]);
    assert_eq!(tree.len(), 1);
    assert!(tree.statements(0).is_empty());
    assert!(diagnostics.is_empty());
}

#[test]
fn rule_rejects_non_assignment_operator() {
    let mut tree = ScopeTree::new();
    let mut diagnostics = Vec::new();
    let r = handle_mutable_assignment(&"a".to_string(), ADD, lit_node(1), &mut tree, 0, &mut diagnostics);
    assert_eq!(r, Err(CompilerError::InvalidOperationAsAssignmentOperation));
    assert_eq!(tree.symbols(0).iter().len(), 0);
}

#[test]
fn rule_binds_fresh_name_as_mutable() {
    let mut tree = ScopeTree::new();
    let mut diagnostics = Vec::new();
    let r = handle_mutable_assignment(&"a".to_string(), SET, lit_node(1), &mut tree, 0, &mut diagnostics);
    assert_eq!(r, Ok(assign("a", SET, lit_node(1))));
    assert_eq!(
        tree.get_symbol(0, &"a".to_string()),
        Some(Variable::new_mutable(DataType::InternalUndefined))
    );
    assert!(diagnostics.is_empty());
}

#[test]
fn advisories_survive_a_later_error() {
    let mut p = parser_for(vec![
        kw(Keyword::Mutable),
        id("x"),
        sym(Symbol::Equals),
        num(1),
        kw(Keyword::Mutable),
        id("x"),
        sym(Symbol::Equals),
        num(2),
        id("a"),
        sym(Symbol::CloseParenthesis),
    ]);
    assert_eq!(
        p.parse().err(),
        Some(CompilerError::UnexpectedToken(TokenKind::SymbolToken(Symbol::CloseParenthesis), 1, 19))
    );
    assert_eq!(p.diagnostics(), &vec![Diagnostic::RedundantMutableKeyword("x".to_string())]);
}

#[test]
fn early_mutable_errors_change_nothing() {
    let mut tree = ScopeTree::new();
    let mut p = parser_for(vec![kw(Keyword::Mutable), num(1)]);
    assert_eq!(p.parse_expression(&mut tree, 0), Err(CompilerError::InvalidUseOfMutableKeyword));
    assert!(p.diagnostics().is_empty());
    assert_eq!(tree.symbols(0).iter().len(), 0);
    let mut p = parser_for(vec![kw(Keyword::Mutable), id("y"), sym(Symbol::Plus), sym(Symbol::Equals), num(1)]);
    assert_eq!(p.parse_expression(&mut tree, 0), Err(CompilerError::UndefinedVariable("y".to_string())));
    assert!(!tree.contains_symbol(0, &"y".to_string()));
}

#[test]
fn factor_consumes_one_token() {
    let mut tree = ScopeTree::new();
    let mut p = parser_for(vec![num(4), sym(Symbol::Plus), id("b")]);
    assert_eq!(p.parse_factor(&mut tree, 0), Ok(lit_node(4)));
    assert_eq!(p.match_operator(0), Some((ADD, 1)));
}

#[test]
fn operator_found_at_larger_offset() {
    let p = parser_for(vec![id("a"), id("b"), id("c"), sym(Symbol::LessThan), sym(Symbol::Equals)]);
    assert_eq!(
        p.match_operator(3),
        Some((Operator::RelationalOperator(Relational::LessThanOrEquals), 5))
    );
    assert_eq!(p.match_operator(7), None);
}
