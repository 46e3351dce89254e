use vstd::prelude::*;

use crate::ids::{GenericLibFuncId, GenericTypeId};
use crate::program::GenericArg;

verus! {

/// Why a generic libfunc could not be specialized.
#[derive(Clone, Debug)]
pub enum SpecializationError {
    /// No family owns the requested id.
    UnsupportedId,
    /// The kind or shape of the arguments is not what the family takes.
    UnsupportedGenericArg,
    /// The number of arguments is not what the family takes.
    WrongNumberOfGenericArgs,
    /// The referenced type was never declared.
    TypeWasNotDeclared(GenericTypeId, Vec<GenericArg>),
}

/// A specialization error, attributed to the libfunc id that caused it.
#[derive(Clone, Debug)]
pub enum ExtensionError {
    LibFuncSpecialization { libfunc_id: GenericLibFuncId, error: SpecializationError },
}

/// Why a simulation rejected its inputs.
#[derive(Clone, Copy, Debug, PartialEq, Eq, Structural)]
pub enum InputError {
    /// The number of input variables does not match the signature.
    WrongNumberOfArgs,
}

} // verus!
