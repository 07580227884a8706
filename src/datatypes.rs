use vstd::prelude::*;

verus! {

/// A runtime value of the scripting language.
#[derive(Debug, Clone, PartialEq)]
pub enum DataType {
    Integer(i64),
    Boolean(bool),
    Text(String),
    /// Placeholder held by a binding whose value is not known at parse time.
    InternalUndefined,
}

impl DataType {
    /// A copy of the value, equal to it.
    pub fn duplicate(&self) -> (r: DataType)
        ensures
            r == *self,
    {
        match self {
            DataType::Integer(i) => DataType::Integer(*i),
            DataType::Boolean(b) => DataType::Boolean(*b),
            DataType::Text(s) => DataType::Text(s.clone()),
            DataType::InternalUndefined => DataType::InternalUndefined,
        }
    }
}

/// A value together with the flag that says whether it may be reassigned.
#[derive(Debug, Clone, PartialEq)]
pub struct Variable {
    pub value: DataType,
    pub mutable: bool,
}

impl Variable {
    pub fn new_mutable(value: DataType) -> (r: Variable)
        ensures
            r == (Variable { value, mutable: true }),
    {
        Variable { value, mutable: true }
    }

    pub fn new_immutable(value: DataType) -> (r: Variable)
        ensures
            r == (Variable { value, mutable: false }),
    {
        Variable { value, mutable: false }
    }

    pub fn is_mutable(&self) -> (r: bool)
        ensures
            r == self.mutable,
    {
        self.mutable
    }

    pub fn duplicate(&self) -> (r: Variable)
        ensures
            r == *self,
    {
        Variable { value: self.value.duplicate(), mutable: self.mutable }
    }
}

} // verus!
