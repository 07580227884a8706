use vstd::prelude::*;

verus! {

#[derive(Debug, Clone, Copy, PartialEq, Eq, Structural)]
pub enum Arithmetic {
    Addition,
    Subtraction,
    Multiplication,
    Division,
    Modulo,
    Exponentiation,
}

#[derive(Debug, Clone, Copy, PartialEq, Eq, Structural)]
pub enum Assignment {
    SimpleAssignment,
    AdditionAssignment,
    SubtractionAssignment,
    MultiplicationAssignment,
    DivisionAssignment,
    ModuloAssignment,
    ExponentiationAssignment,
}

#[derive(Debug, Clone, Copy, PartialEq, Eq, Structural)]
pub enum Relational {
    Equality,
    Inequality,
    LessThan,
    LessThanOrEquals,
    GreaterThan,
    GreaterThanOrEquals,
}

#[derive(Debug, Clone, Copy, PartialEq, Eq, Structural)]
pub enum Logical {
    And,
    Or,
    Not,
    Xor,
}

/// Every operator of the language, grouped by category.
#[derive(Debug, Clone, Copy, PartialEq, Eq, Structural)]
pub enum Operator {
    ArithmeticOperator(Arithmetic),
    AssignmentOperator(Assignment),
    RelationalOperator(Relational),
    LogicalOperator(Logical),
}

/// Binding strength in prefix position; 0 means the operator has no prefix form.
/// Unary `+`, `-` and `not` bind tighter than `*` but looser than `**`.
pub open spec fn unary_precedence(op: Operator) -> nat {
    match op {
        Operator::ArithmeticOperator(Arithmetic::Addition) => 7,
        Operator::ArithmeticOperator(Arithmetic::Subtraction) => 7,
        Operator::LogicalOperator(Logical::Not) => 7,
        _ => 0,
    }
}

/// Binding strength in infix position; 0 means the operator never combines two operands.
pub open spec fn binary_precedence(op: Operator) -> nat {
    match op {
        Operator::LogicalOperator(Logical::Or) => 1,
        Operator::LogicalOperator(Logical::Xor) => 2,
        Operator::LogicalOperator(Logical::And) => 3,
        Operator::LogicalOperator(Logical::Not) => 0,
        Operator::RelationalOperator(_) => 4,
        Operator::ArithmeticOperator(Arithmetic::Addition) => 5,
        Operator::ArithmeticOperator(Arithmetic::Subtraction) => 5,
        Operator::ArithmeticOperator(Arithmetic::Exponentiation) => 8,
        Operator::ArithmeticOperator(_) => 6,
        Operator::AssignmentOperator(_) => 0,
    }
}

impl Operator {
    pub fn get_unary_precedence(&self) -> (r: u8)
        ensures
            r as nat == unary_precedence(*self),
    {
        match self {
            Operator::ArithmeticOperator(Arithmetic::Addition) => 7,
            Operator::ArithmeticOperator(Arithmetic::Subtraction) => 7,
            Operator::LogicalOperator(Logical::Not) => 7,
            _ => 0,
        }
    }

    pub fn get_binary_precedence(&self) -> (r: u8)
        ensures
            r as nat == binary_precedence(*self),
    {
        match self {
            Operator::LogicalOperator(Logical::Or) => 1,
            Operator::LogicalOperator(Logical::Xor) => 2,
            Operator::LogicalOperator(Logical::And) => 3,
            Operator::LogicalOperator(Logical::Not) => 0,
            Operator::RelationalOperator(_) => 4,
            Operator::ArithmeticOperator(Arithmetic::Addition) => 5,
            Operator::ArithmeticOperator(Arithmetic::Subtraction) => 5,
            Operator::ArithmeticOperator(Arithmetic::Exponentiation) => 8,
            Operator::ArithmeticOperator(_) => 6,
            Operator::AssignmentOperator(_) => 0,
        }
    }

    pub fn is_assignment(&self) -> (r: bool)
        ensures
            r == (*self is AssignmentOperator),
    {
        match self {
            Operator::AssignmentOperator(_) => true,
            _ => false,
        }
    }
}

} // verus!
