use exprparse::datatypes::{DataType, Variable};
use exprparse::lexer::Lexer;
use exprparse::symbol_table::SymbolTable;
use exprparse::token::{Symbol, Token, TokenKind};

#[test]
fn token_new_keeps_fields() {
    let t = Token::new(TokenKind::NewLineToken, 3, 9);
    assert_eq!(t.kind, TokenKind::NewLineToken);
    assert_eq!(t.line, 3);
    assert_eq!(t.column, 9);
}

#[test]
fn lexer_reports_end_past_last_token() {
    let mut lexer = Lexer::new(vec![
        Token::new(TokenKind::SymbolToken(Symbol::Plus), 2, 4),
        Token::new(TokenKind::SymbolToken(Symbol::Minus), 2, 6),
    ]);
    assert_eq!(lexer.get_token_count(), 2);
    assert_eq!(lexer.peek(1).kind, TokenKind::SymbolToken(Symbol::Minus));
    assert_eq!(lexer.peek(5), &Token::new(TokenKind::EndOfFileToken, 2, 6));
    lexer.advance_by(10);
    assert_eq!(lexer.get_current_token().kind, TokenKind::EndOfFileToken);
    let t = lexer.get_current_token_and_advance();
    assert_eq!(t.kind, TokenKind::EndOfFileToken);
}

#[test]
fn empty_lexer_end_is_at_origin() {
    let lexer = Lexer::new(vec![]);
    assert_eq!(lexer.get_current_token(), &Token::new(TokenKind::EndOfFileToken, 1, 1));
}

#[test]
fn symbol_table_insert_and_replace() {
    let mut table = SymbolTable::new();
    assert!(!table.contains(&"a".to_string()));
    table.insert("a".to_string(), Variable::new_immutable(DataType::Integer(1)));
    table.insert("b".to_string(), Variable::new_mutable(DataType::Boolean(false)));
    table.insert("a".to_string(), Variable::new_mutable(DataType::Integer(2)));
    assert!(table.contains(&"a".to_string()));
    assert_eq!(table.get(&"a".to_string()), Some(Variable::new_mutable(DataType::Integer(2))));
    assert_eq!(table.iter().len(), 2);
    assert_eq!(table.get(&"c".to_string()), None);
}

#[test]
fn sharable_table_starts_empty() {
    let shared = SymbolTable::sharable();
    assert_eq!(shared.iter().len(), 0);
}

#[test]
fn duplicate_is_equal() {
    let v = Variable::new_mutable(DataType::Text("s".to_string()));
    assert_eq!(v.duplicate(), v);
    let k = TokenKind::IdentifierToken("n".to_string());
    assert_eq!(k.duplicate(), k);
}
