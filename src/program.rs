use vstd::prelude::*;

use crate::ids::{ConcreteTypeId, FunctionId};

verus! {

/// An argument handed to a generic type or libfunc: a type reference or a literal value.
#[derive(Clone, Copy, Debug, PartialEq, Eq, Hash, Structural)]
pub enum GenericArg {
    Type(ConcreteTypeId),
    Value(i128),
}

/// A function declared by the program: its parameter and return types.
#[derive(Clone, Debug)]
pub struct Function {
    pub id: FunctionId,
    pub param_types: Vec<ConcreteTypeId>,
    pub ret_types: Vec<ConcreteTypeId>,
}

} // verus!
