pub mod ast;
pub mod datatypes;
pub mod errors;
pub mod operators;
pub mod token;
pub mod symbol_table;
pub mod block;
pub mod lexer;
pub mod grammar;
pub mod parser;
pub mod laws;
