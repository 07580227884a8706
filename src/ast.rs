use vstd::prelude::*;

use crate::datatypes::DataType;
use crate::operators::Operator;

verus! {

/// A node of the syntax tree; each node owns its children.
#[derive(Debug, PartialEq)]
pub enum AbstractSyntaxTree {
    Literal(DataType),
    Identifier(String),
    UnaryExpression(Operator, Box<AbstractSyntaxTree>),
    BinaryExpression(Box<AbstractSyntaxTree>, Operator, Box<AbstractSyntaxTree>),
    ParenthesizedExpression(Box<AbstractSyntaxTree>),
    AssignmentExpression(String, Operator, Box<AbstractSyntaxTree>),
}

} // verus!
