use vstd::prelude::*;

use crate::error::{InputError, SpecializationError};
use crate::ids::{ConcreteTypeId, GenericLibFuncId};
use crate::lib_func::{
    simulation_view, ConcreteLibFunc, GenericLibFunc, NamedLibFunc, NoGenericArgsGenericLibFunc,
    NonBranchConcreteLibFunc, SpecializationContext,
};
use crate::mem_cell::{cells_view, MemCell};
use crate::program::GenericArg;

verus! {

/// The type of an argument list that is exactly one type argument.
pub open spec fn single_type_result(args: Seq<GenericArg>) -> Result<ConcreteTypeId, SpecializationError> {
    if args.len() == 1 && args[0] is Type {
        Ok(args[0]->Type_0)
    } else {
        Err(SpecializationError::UnsupportedGenericArg)
    }
}

/// Helper for extracting the type from the template arguments.
pub fn as_single_type(args: &[GenericArg]) -> (r: Result<ConcreteTypeId, SpecializationError>)
    ensures
        r == single_type_result(args@),
{
    if args.len() == 1 {
        match args[0] {
            GenericArg::Type(ty) => Ok(ty),
            GenericArg::Value(_) => Err(SpecializationError::UnsupportedGenericArg),
        }
    } else {
        Err(SpecializationError::UnsupportedGenericArg)
    }
}

/// Passing one variable through unchanged; any other number of variables is rejected.
pub open spec fn identity_simulation(inputs: Seq<Seq<MemCell>>) -> Result<Seq<Seq<MemCell>>, InputError> {
    if inputs.len() == 1 {
        Ok(inputs)
    } else {
        Err(InputError::WrongNumberOfArgs)
    }
}

/// Taking no variable and producing none; any input variable is rejected.
pub open spec fn empty_simulation(inputs: Seq<Seq<MemCell>>) -> Result<Seq<Seq<MemCell>>, InputError> {
    if inputs.len() == 0 {
        Ok(seq![])
    } else {
        Err(InputError::WrongNumberOfArgs)
    }
}

/// Hands the cells of exactly one input variable back as the one output variable.
pub fn single_variable_identity(inputs: Vec<Vec<MemCell>>) -> (r: Result<Vec<Vec<MemCell>>, InputError>)
    ensures
        simulation_view(r) == identity_simulation(cells_view(inputs@)),
{
    if inputs.len() == 1 {
        Ok(inputs)
    } else {
        Err(InputError::WrongNumberOfArgs)
    }
}

/// Accepts exactly zero input variables, and produces zero output variables.
pub fn no_variables(inputs: Vec<Vec<MemCell>>) -> (r: Result<Vec<Vec<MemCell>>, InputError>)
    ensures
        simulation_view(r) == empty_simulation(cells_view(inputs@)),
{
    if inputs.len() == 0 {
        let r: Vec<Vec<MemCell>> = Vec::new();
        assert(cells_view(r@) =~= seq![]);
        Ok(r)
    } else {
        Err(InputError::WrongNumberOfArgs)
    }
}

/// Libfunc for storing a deferred value into temporary memory.
pub struct StoreTempGeneric {}

impl NamedLibFunc for StoreTempGeneric {
    type Concrete = StoreTempConcrete;

    open spec fn spec_name() -> Seq<char> {
        "store_temp"@
    }

    open spec fn spec_new() -> Self {
        StoreTempGeneric {}
    }

    open spec fn spec_named_specialize(
        &self,
        context: SpecializationContext,
        args: Seq<GenericArg>,
        r: Result<StoreTempConcrete, SpecializationError>,
    ) -> bool {
        r == match single_type_result(args) {
            Ok(ty) => Ok(StoreTempConcrete { ty }),
            Err(e) => Err(e),
        }
    }

    fn name() -> (r: &'static str) {
        "store_temp"
    }

    fn new() -> (r: Self) {
        StoreTempGeneric {}
    }

    fn specialize(&self, context: SpecializationContext<'_>, args: &[GenericArg]) -> (r: Result<
        StoreTempConcrete,
        SpecializationError,
    >) {
        match as_single_type(args) {
            Ok(ty) => Ok(StoreTempConcrete { ty }),
            Err(e) => Err(e),
        }
    }
}

/// A `store_temp` specialized to the type of the stored value.
pub struct StoreTempConcrete {
    pub ty: ConcreteTypeId,
}

impl NonBranchConcreteLibFunc for StoreTempConcrete {
    open spec fn spec_non_branch_input_types(&self) -> Seq<ConcreteTypeId> {
        seq![self.ty]
    }

    open spec fn spec_non_branch_output_types(&self) -> Seq<ConcreteTypeId> {
        seq![self.ty]
    }

    open spec fn spec_non_branch_simulate(&self, inputs: Seq<Seq<MemCell>>) -> Result<
        Seq<Seq<MemCell>>,
        InputError,
    > {
        identity_simulation(inputs)
    }

    fn input_types(&self) -> (r: Vec<ConcreteTypeId>) {
        let r: Vec<ConcreteTypeId> = vec![self.ty];
        assert(r@ =~= seq![self.ty]);
        r
    }

    fn output_types(&self) -> (r: Vec<ConcreteTypeId>) {
        let r: Vec<ConcreteTypeId> = vec![self.ty];
        assert(r@ =~= seq![self.ty]);
        r
    }

    fn non_branch_simulate(&self, inputs: Vec<Vec<MemCell>>) -> (r: Result<
        Vec<Vec<MemCell>>,
        InputError,
    >) {
        single_variable_identity(inputs)
    }
}

/// Libfunc for aligning the temporary buffer for flow control merge.
pub struct AlignTempsGeneric {}

impl NamedLibFunc for AlignTempsGeneric {
    type Concrete = AlignTempsConcrete;

    open spec fn spec_name() -> Seq<char> {
        "align_temps"@
    }

    open spec fn spec_new() -> Self {
        AlignTempsGeneric {}
    }

    open spec fn spec_named_specialize(
        &self,
        context: SpecializationContext,
        args: Seq<GenericArg>,
        r: Result<AlignTempsConcrete, SpecializationError>,
    ) -> bool {
        r == match single_type_result(args) {
            Ok(ty) => Ok(AlignTempsConcrete { ty }),
            Err(e) => Err(e),
        }
    }

    fn name() -> (r: &'static str) {
        "align_temps"
    }

    fn new() -> (r: Self) {
        AlignTempsGeneric {}
    }

    fn specialize(&self, context: SpecializationContext<'_>, args: &[GenericArg]) -> (r: Result<
        AlignTempsConcrete,
        SpecializationError,
    >) {
        match as_single_type(args) {
            Ok(ty) => Ok(AlignTempsConcrete { ty }),
            Err(e) => Err(e),
        }
    }
}

/// An `align_temps` specialized to the type it aligns for.
pub struct AlignTempsConcrete {
    pub ty: ConcreteTypeId,
}

impl NonBranchConcreteLibFunc for AlignTempsConcrete {
    open spec fn spec_non_branch_input_types(&self) -> Seq<ConcreteTypeId> {
        seq![]
    }

    open spec fn spec_non_branch_output_types(&self) -> Seq<ConcreteTypeId> {
        seq![]
    }

    open spec fn spec_non_branch_simulate(&self, inputs: Seq<Seq<MemCell>>) -> Result<
        Seq<Seq<MemCell>>,
        InputError,
    > {
        empty_simulation(inputs)
    }

    fn input_types(&self) -> (r: Vec<ConcreteTypeId>) {
        let r: Vec<ConcreteTypeId> = Vec::new();
        assert(r@ =~= seq![]);
        r
    }

    fn output_types(&self) -> (r: Vec<ConcreteTypeId>) {
        let r: Vec<ConcreteTypeId> = Vec::new();
        assert(r@ =~= seq![]);
        r
    }

    fn non_branch_simulate(&self, inputs: Vec<Vec<MemCell>>) -> (r: Result<
        Vec<Vec<MemCell>>,
        InputError,
    >) {
        no_variables(inputs)
    }
}

/// Libfunc for storing a deferred value into local memory.
pub struct StoreLocalGeneric {}

impl NamedLibFunc for StoreLocalGeneric {
    type Concrete = StoreLocalConcrete;

    open spec fn spec_name() -> Seq<char> {
        "store_local"@
    }

    open spec fn spec_new() -> Self {
        StoreLocalGeneric {}
    }

    open spec fn spec_named_specialize(
        &self,
        context: SpecializationContext,
        args: Seq<GenericArg>,
        r: Result<StoreLocalConcrete, SpecializationError>,
    ) -> bool {
        r == match single_type_result(args) {
            Ok(ty) => Ok(StoreLocalConcrete { ty }),
            Err(e) => Err(e),
        }
    }

    fn name() -> (r: &'static str) {
        "store_local"
    }

    fn new() -> (r: Self) {
        StoreLocalGeneric {}
    }

    fn specialize(&self, context: SpecializationContext<'_>, args: &[GenericArg]) -> (r: Result<
        StoreLocalConcrete,
        SpecializationError,
    >) {
        match as_single_type(args) {
            Ok(ty) => Ok(StoreLocalConcrete { ty }),
            Err(e) => Err(e),
        }
    }
}

/// A `store_local` specialized to the type of the stored value.
pub struct StoreLocalConcrete {
    pub ty: ConcreteTypeId,
}

impl NonBranchConcreteLibFunc for StoreLocalConcrete {
    open spec fn spec_non_branch_input_types(&self) -> Seq<ConcreteTypeId> {
        seq![self.ty]
    }

    open spec fn spec_non_branch_output_types(&self) -> Seq<ConcreteTypeId> {
        seq![self.ty]
    }

    open spec fn spec_non_branch_simulate(&self, inputs: Seq<Seq<MemCell>>) -> Result<
        Seq<Seq<MemCell>>,
        InputError,
    > {
        identity_simulation(inputs)
    }

    fn input_types(&self) -> (r: Vec<ConcreteTypeId>) {
        let r: Vec<ConcreteTypeId> = vec![self.ty];
        assert(r@ =~= seq![self.ty]);
        r
    }

    fn output_types(&self) -> (r: Vec<ConcreteTypeId>) {
        let r: Vec<ConcreteTypeId> = vec![self.ty];
        assert(r@ =~= seq![self.ty]);
        r
    }

    fn non_branch_simulate(&self, inputs: Vec<Vec<MemCell>>) -> (r: Result<
        Vec<Vec<MemCell>>,
        InputError,
    >) {
        single_variable_identity(inputs)
    }
}

/// Libfunc for allocating locals for later stores.
pub struct AllocLocalsGeneric {}

impl NoGenericArgsGenericLibFunc for AllocLocalsGeneric {
    type Concrete = AllocLocalsConcrete;

    open spec fn spec_name() -> Seq<char> {
        "alloc_locals"@
    }

    open spec fn spec_new() -> Self {
        AllocLocalsGeneric {}
    }

    open spec fn spec_no_args_specialize(
        &self,
        context: SpecializationContext,
        r: Result<AllocLocalsConcrete, SpecializationError>,
    ) -> bool {
        r == Ok::<AllocLocalsConcrete, SpecializationError>(AllocLocalsConcrete {})
    }

    fn name() -> (r: &'static str) {
        "alloc_locals"
    }

    fn new() -> (r: Self) {
        AllocLocalsGeneric {}
    }

    fn specialize(&self, context: SpecializationContext<'_>) -> (r: Result<AllocLocalsConcrete, SpecializationError>) {
        Ok(AllocLocalsConcrete {})
    }
}

/// An `alloc_locals`, which takes no type.
pub struct AllocLocalsConcrete {}

impl NonBranchConcreteLibFunc for AllocLocalsConcrete {
    open spec fn spec_non_branch_input_types(&self) -> Seq<ConcreteTypeId> {
        seq![]
    }

    open spec fn spec_non_branch_output_types(&self) -> Seq<ConcreteTypeId> {
        seq![]
    }

    open spec fn spec_non_branch_simulate(&self, inputs: Seq<Seq<MemCell>>) -> Result<
        Seq<Seq<MemCell>>,
        InputError,
    > {
        empty_simulation(inputs)
    }

    fn input_types(&self) -> (r: Vec<ConcreteTypeId>) {
        let r: Vec<ConcreteTypeId> = Vec::new();
        assert(r@ =~= seq![]);
        r
    }

    fn output_types(&self) -> (r: Vec<ConcreteTypeId>) {
        let r: Vec<ConcreteTypeId> = Vec::new();
        assert(r@ =~= seq![]);
        r
    }

    fn non_branch_simulate(&self, inputs: Vec<Vec<MemCell>>) -> (r: Result<
        Vec<Vec<MemCell>>,
        InputError,
    >) {
        no_variables(inputs)
    }
}

/// Libfunc for renaming an identifier - used to align identities for flow control merge.
pub struct RenameGeneric {}

impl NamedLibFunc for RenameGeneric {
    type Concrete = RenameConcrete;

    open spec fn spec_name() -> Seq<char> {
        "rename"@
    }

    open spec fn spec_new() -> Self {
        RenameGeneric {}
    }

    open spec fn spec_named_specialize(
        &self,
        context: SpecializationContext,
        args: Seq<GenericArg>,
        r: Result<RenameConcrete, SpecializationError>,
    ) -> bool {
        r == match single_type_result(args) {
            Ok(ty) => Ok(RenameConcrete { ty }),
            Err(e) => Err(e),
        }
    }

    fn name() -> (r: &'static str) {
        "rename"
    }

    fn new() -> (r: Self) {
        RenameGeneric {}
    }

    fn specialize(&self, context: SpecializationContext<'_>, args: &[GenericArg]) -> (r: Result<
        RenameConcrete,
        SpecializationError,
    >) {
        match as_single_type(args) {
            Ok(ty) => Ok(RenameConcrete { ty }),
            Err(e) => Err(e),
        }
    }
}

/// A `rename` specialized to the type of the renamed value.
pub struct RenameConcrete {
    pub ty: ConcreteTypeId,
}

impl NonBranchConcreteLibFunc for RenameConcrete {
    open spec fn spec_non_branch_input_types(&self) -> Seq<ConcreteTypeId> {
        seq![self.ty]
    }

    open spec fn spec_non_branch_output_types(&self) -> Seq<ConcreteTypeId> {
        seq![self.ty]
    }

    open spec fn spec_non_branch_simulate(&self, inputs: Seq<Seq<MemCell>>) -> Result<
        Seq<Seq<MemCell>>,
        InputError,
    > {
        identity_simulation(inputs)
    }

    fn input_types(&self) -> (r: Vec<ConcreteTypeId>) {
        let r: Vec<ConcreteTypeId> = vec![self.ty];
        assert(r@ =~= seq![self.ty]);
        r
    }

    fn output_types(&self) -> (r: Vec<ConcreteTypeId>) {
        let r: Vec<ConcreteTypeId> = vec![self.ty];
        assert(r@ =~= seq![self.ty]);
        r
    }

    fn non_branch_simulate(&self, inputs: Vec<Vec<MemCell>>) -> (r: Result<
        Vec<Vec<MemCell>>,
        InputError,
    >) {
        single_variable_identity(inputs)
    }
}

/// Libfunc for making a type deferred for later store.
pub struct MoveGeneric {}

impl NamedLibFunc for MoveGeneric {
    type Concrete = MoveConcrete;

    open spec fn spec_name() -> Seq<char> {
        "move"@
    }

    open spec fn spec_new() -> Self {
        MoveGeneric {}
    }

    open spec fn spec_named_specialize(
        &self,
        context: SpecializationContext,
        args: Seq<GenericArg>,
        r: Result<MoveConcrete, SpecializationError>,
    ) -> bool {
        r == match single_type_result(args) {
            Ok(ty) => Ok(MoveConcrete { ty }),
            Err(e) => Err(e),
        }
    }

    fn name() -> (r: &'static str) {
        "move"
    }

    fn new() -> (r: Self) {
        MoveGeneric {}
    }

    fn specialize(&self, context: SpecializationContext<'_>, args: &[GenericArg]) -> (r: Result<
        MoveConcrete,
        SpecializationError,
    >) {
        match as_single_type(args) {
            Ok(ty) => Ok(MoveConcrete { ty }),
            Err(e) => Err(e),
        }
    }
}

/// A `move` specialized to the type of the moved value.
pub struct MoveConcrete {
    pub ty: ConcreteTypeId,
}

impl NonBranchConcreteLibFunc for MoveConcrete {
    open spec fn spec_non_branch_input_types(&self) -> Seq<ConcreteTypeId> {
        seq![self.ty]
    }

    open spec fn spec_non_branch_output_types(&self) -> Seq<ConcreteTypeId> {
        seq![self.ty]
    }

    open spec fn spec_non_branch_simulate(&self, inputs: Seq<Seq<MemCell>>) -> Result<
        Seq<Seq<MemCell>>,
        InputError,
    > {
        identity_simulation(inputs)
    }

    fn input_types(&self) -> (r: Vec<ConcreteTypeId>) {
        let r: Vec<ConcreteTypeId> = vec![self.ty];
        assert(r@ =~= seq![self.ty]);
        r
    }

    fn output_types(&self) -> (r: Vec<ConcreteTypeId>) {
        let r: Vec<ConcreteTypeId> = vec![self.ty];
        assert(r@ =~= seq![self.ty]);
        r
    }

    fn non_branch_simulate(&self, inputs: Vec<Vec<MemCell>>) -> (r: Result<
        Vec<Vec<MemCell>>,
        InputError,
    >) {
        single_variable_identity(inputs)
    }
}

/// The memory-management libfuncs, composed into one libfunc dispatched by id.
pub enum MemLibFunc {
    StoreTemp(StoreTempGeneric),
    AlignTemps(AlignTempsGeneric),
    StoreLocal(StoreLocalGeneric),
    AllocLocals(AllocLocalsGeneric),
    Rename(RenameGeneric),
    Move(MoveGeneric),
}

/// The specialized memory-management libfuncs, one variant per family.
pub enum MemConcreteLibFunc {
    StoreTemp(StoreTempConcrete),
    AlignTemps(AlignTempsConcrete),
    StoreLocal(StoreLocalConcrete),
    AllocLocals(AllocLocalsConcrete),
    Rename(RenameConcrete),
    Move(MoveConcrete),
}

impl ConcreteLibFunc for MemConcreteLibFunc {
    open spec fn spec_input_types(&self) -> Seq<ConcreteTypeId> {
        match self {
            MemConcreteLibFunc::StoreTemp(value) => value.spec_input_types(),
            MemConcreteLibFunc::AlignTemps(value) => value.spec_input_types(),
            MemConcreteLibFunc::StoreLocal(value) => value.spec_input_types(),
            MemConcreteLibFunc::AllocLocals(value) => value.spec_input_types(),
            MemConcreteLibFunc::Rename(value) => value.spec_input_types(),
            MemConcreteLibFunc::Move(value) => value.spec_input_types(),
        }
    }

    open spec fn spec_output_types(&self) -> Seq<Seq<ConcreteTypeId>> {
        match self {
            MemConcreteLibFunc::StoreTemp(value) => value.spec_output_types(),
            MemConcreteLibFunc::AlignTemps(value) => value.spec_output_types(),
            MemConcreteLibFunc::StoreLocal(value) => value.spec_output_types(),
            MemConcreteLibFunc::AllocLocals(value) => value.spec_output_types(),
            MemConcreteLibFunc::Rename(value) => value.spec_output_types(),
            MemConcreteLibFunc::Move(value) => value.spec_output_types(),
        }
    }

    open spec fn spec_fallthrough(&self) -> Option<usize> {
        match self {
            MemConcreteLibFunc::StoreTemp(value) => value.spec_fallthrough(),
            MemConcreteLibFunc::AlignTemps(value) => value.spec_fallthrough(),
            MemConcreteLibFunc::StoreLocal(value) => value.spec_fallthrough(),
            MemConcreteLibFunc::AllocLocals(value) => value.spec_fallthrough(),
            MemConcreteLibFunc::Rename(value) => value.spec_fallthrough(),
            MemConcreteLibFunc::Move(value) => value.spec_fallthrough(),
        }
    }

    open spec fn spec_simulate(&self, inputs: Seq<Seq<MemCell>>) -> Result<
        Seq<Seq<MemCell>>,
        InputError,
    > {
        match self {
            MemConcreteLibFunc::StoreTemp(value) => value.spec_simulate(inputs),
            MemConcreteLibFunc::AlignTemps(value) => value.spec_simulate(inputs),
            MemConcreteLibFunc::StoreLocal(value) => value.spec_simulate(inputs),
            MemConcreteLibFunc::AllocLocals(value) => value.spec_simulate(inputs),
            MemConcreteLibFunc::Rename(value) => value.spec_simulate(inputs),
            MemConcreteLibFunc::Move(value) => value.spec_simulate(inputs),
        }
    }

    fn input_types(&self) -> (r: Vec<ConcreteTypeId>) {
        match self {
            MemConcreteLibFunc::StoreTemp(value) => <StoreTempConcrete as ConcreteLibFunc>::input_types(value),
            MemConcreteLibFunc::AlignTemps(value) => <AlignTempsConcrete as ConcreteLibFunc>::input_types(value),
            MemConcreteLibFunc::StoreLocal(value) => <StoreLocalConcrete as ConcreteLibFunc>::input_types(value),
            MemConcreteLibFunc::AllocLocals(value) => <AllocLocalsConcrete as ConcreteLibFunc>::input_types(value),
            MemConcreteLibFunc::Rename(value) => <RenameConcrete as ConcreteLibFunc>::input_types(value),
            MemConcreteLibFunc::Move(value) => <MoveConcrete as ConcreteLibFunc>::input_types(value),
        }
    }

    fn output_types(&self) -> (r: Vec<Vec<ConcreteTypeId>>) {
        match self {
            MemConcreteLibFunc::StoreTemp(value) => <StoreTempConcrete as ConcreteLibFunc>::output_types(value),
            MemConcreteLibFunc::AlignTemps(value) => <AlignTempsConcrete as ConcreteLibFunc>::output_types(value),
            MemConcreteLibFunc::StoreLocal(value) => <StoreLocalConcrete as ConcreteLibFunc>::output_types(value),
            MemConcreteLibFunc::AllocLocals(value) => <AllocLocalsConcrete as ConcreteLibFunc>::output_types(value),
            MemConcreteLibFunc::Rename(value) => <RenameConcrete as ConcreteLibFunc>::output_types(value),
            MemConcreteLibFunc::Move(value) => <MoveConcrete as ConcreteLibFunc>::output_types(value),
        }
    }

    fn fallthrough(&self) -> (r: Option<usize>) {
        match self {
            MemConcreteLibFunc::StoreTemp(value) => <StoreTempConcrete as ConcreteLibFunc>::fallthrough(value),
            MemConcreteLibFunc::AlignTemps(value) => <AlignTempsConcrete as ConcreteLibFunc>::fallthrough(value),
            MemConcreteLibFunc::StoreLocal(value) => <StoreLocalConcrete as ConcreteLibFunc>::fallthrough(value),
            MemConcreteLibFunc::AllocLocals(value) => <AllocLocalsConcrete as ConcreteLibFunc>::fallthrough(value),
            MemConcreteLibFunc::Rename(value) => <RenameConcrete as ConcreteLibFunc>::fallthrough(value),
            MemConcreteLibFunc::Move(value) => <MoveConcrete as ConcreteLibFunc>::fallthrough(value),
        }
    }

    fn simulate(&self, inputs: Vec<Vec<MemCell>>) -> (r: Result<Vec<Vec<MemCell>>, InputError>) {
        match self {
            MemConcreteLibFunc::StoreTemp(value) => <StoreTempConcrete as ConcreteLibFunc>::simulate(
                value,
                inputs,
            ),
            MemConcreteLibFunc::AlignTemps(value) => <AlignTempsConcrete as ConcreteLibFunc>::simulate(
                value,
                inputs,
            ),
            MemConcreteLibFunc::StoreLocal(value) => <StoreLocalConcrete as ConcreteLibFunc>::simulate(
                value,
                inputs,
            ),
            MemConcreteLibFunc::AllocLocals(value) => <AllocLocalsConcrete as ConcreteLibFunc>::simulate(
                value,
                inputs,
            ),
            MemConcreteLibFunc::Rename(value) => <RenameConcrete as ConcreteLibFunc>::simulate(
                value,
                inputs,
            ),
            MemConcreteLibFunc::Move(value) => <MoveConcrete as ConcreteLibFunc>::simulate(
                value,
                inputs,
            ),
        }
    }
}

impl GenericLibFunc for MemLibFunc {
    type Concrete = MemConcreteLibFunc;

    /// The first family, in declaration order, that owns the id.
    open spec fn spec_by_id(id: Seq<char>) -> Option<Self> {
        if let Some(f) = StoreTempGeneric::spec_by_id(id) {
            Some(MemLibFunc::StoreTemp(f))
        } else if let Some(f) = AlignTempsGeneric::spec_by_id(id) {
            Some(MemLibFunc::AlignTemps(f))
        } else if let Some(f) = StoreLocalGeneric::spec_by_id(id) {
            Some(MemLibFunc::StoreLocal(f))
        } else if let Some(f) = AllocLocalsGeneric::spec_by_id(id) {
            Some(MemLibFunc::AllocLocals(f))
        } else if let Some(f) = RenameGeneric::spec_by_id(id) {
            Some(MemLibFunc::Rename(f))
        } else if let Some(f) = MoveGeneric::spec_by_id(id) {
            Some(MemLibFunc::Move(f))
        } else {
            None
        }
    }

    open spec fn spec_specialize(
        &self,
        context: SpecializationContext,
        args: Seq<GenericArg>,
        r: Result<MemConcreteLibFunc, SpecializationError>,
    ) -> bool {
        match self {
            MemLibFunc::StoreTemp(f) => match r {
                Ok(MemConcreteLibFunc::StoreTemp(c)) => f.spec_specialize(context, args, Ok(c)),
                Ok(_) => false,
                Err(e) => f.spec_specialize(context, args, Err(e)),
            },
            MemLibFunc::AlignTemps(f) => match r {
                Ok(MemConcreteLibFunc::AlignTemps(c)) => f.spec_specialize(context, args, Ok(c)),
                Ok(_) => false,
                Err(e) => f.spec_specialize(context, args, Err(e)),
            },
            MemLibFunc::StoreLocal(f) => match r {
                Ok(MemConcreteLibFunc::StoreLocal(c)) => f.spec_specialize(context, args, Ok(c)),
                Ok(_) => false,
                Err(e) => f.spec_specialize(context, args, Err(e)),
            },
            MemLibFunc::AllocLocals(f) => match r {
                Ok(MemConcreteLibFunc::AllocLocals(c)) => f.spec_specialize(context, args, Ok(c)),
                Ok(_) => false,
                Err(e) => f.spec_specialize(context, args, Err(e)),
            },
            MemLibFunc::Rename(f) => match r {
                Ok(MemConcreteLibFunc::Rename(c)) => f.spec_specialize(context, args, Ok(c)),
                Ok(_) => false,
                Err(e) => f.spec_specialize(context, args, Err(e)),
            },
            MemLibFunc::Move(f) => match r {
                Ok(MemConcreteLibFunc::Move(c)) => f.spec_specialize(context, args, Ok(c)),
                Ok(_) => false,
                Err(e) => f.spec_specialize(context, args, Err(e)),
            },
        }
    }

    fn by_id(id: &GenericLibFuncId) -> (r: Option<Self>) {
        if let Some(f) = <StoreTempGeneric as GenericLibFunc>::by_id(id) {
            return Some(MemLibFunc::StoreTemp(f));
        }
        if let Some(f) = <AlignTempsGeneric as GenericLibFunc>::by_id(id) {
            return Some(MemLibFunc::AlignTemps(f));
        }
        if let Some(f) = <StoreLocalGeneric as GenericLibFunc>::by_id(id) {
            return Some(MemLibFunc::StoreLocal(f));
        }
        if let Some(f) = <AllocLocalsGeneric as GenericLibFunc>::by_id(id) {
            return Some(MemLibFunc::AllocLocals(f));
        }
        if let Some(f) = <RenameGeneric as GenericLibFunc>::by_id(id) {
            return Some(MemLibFunc::Rename(f));
        }
        if let Some(f) = <MoveGeneric as GenericLibFunc>::by_id(id) {
            return Some(MemLibFunc::Move(f));
        }
        None
    }

    fn specialize(&self, context: SpecializationContext<'_>, args: &[GenericArg]) -> (r: Result<
        MemConcreteLibFunc,
        SpecializationError,
    >) {
        match self {
            MemLibFunc::StoreTemp(f) => match <StoreTempGeneric as GenericLibFunc>::specialize(
                f,
                context,
                args,
            ) {
                Ok(c) => Ok(MemConcreteLibFunc::StoreTemp(c)),
                Err(e) => Err(e),
            },
            MemLibFunc::AlignTemps(f) => match <AlignTempsGeneric as GenericLibFunc>::specialize(
                f,
                context,
                args,
            ) {
                Ok(c) => Ok(MemConcreteLibFunc::AlignTemps(c)),
                Err(e) => Err(e),
            },
            MemLibFunc::StoreLocal(f) => match <StoreLocalGeneric as GenericLibFunc>::specialize(
                f,
                context,
                args,
            ) {
                Ok(c) => Ok(MemConcreteLibFunc::StoreLocal(c)),
                Err(e) => Err(e),
            },
            MemLibFunc::AllocLocals(f) => match <AllocLocalsGeneric as GenericLibFunc>::specialize(
                f,
                context,
                args,
            ) {
                Ok(c) => Ok(MemConcreteLibFunc::AllocLocals(c)),
                Err(e) => Err(e),
            },
            MemLibFunc::Rename(f) => match <RenameGeneric as GenericLibFunc>::specialize(
                f,
                context,
                args,
            ) {
                Ok(c) => Ok(MemConcreteLibFunc::Rename(c)),
                Err(e) => Err(e),
            },
            MemLibFunc::Move(f) => match <MoveGeneric as GenericLibFunc>::specialize(
                f,
                context,
                args,
            ) {
                Ok(c) => Ok(MemConcreteLibFunc::Move(c)),
                Err(e) => Err(e),
            },
        }
    }
}

/// 1 where the family `T` owns the id `id`, else 0.
pub open spec fn owner_count<T: GenericLibFunc>(id: Seq<char>) -> nat {
    if T::spec_by_id(id) is Some {
        1
    } else {
        0
    }
}

/// How many of the memory-management families own the id `id`.
pub open spec fn mem_owner_count(id: Seq<char>) -> nat {
    owner_count::<StoreTempGeneric>(id) + owner_count::<AlignTempsGeneric>(id)
        + owner_count::<StoreLocalGeneric>(id) + owner_count::<AllocLocalsGeneric>(id)
        + owner_count::<RenameGeneric>(id) + owner_count::<MoveGeneric>(id)
}

/// The composed libfunc finds an id exactly when exactly one member family owns it, and
/// then holds that family: no two families share an id, so the first match is the only one.
pub proof fn lemma_mem_by_id(id: Seq<char>)
    ensures
        mem_owner_count(id) <= 1,
        MemLibFunc::spec_by_id(id) is Some <==> mem_owner_count(id) == 1,
        MemLibFunc::spec_by_id(id) matches Some(MemLibFunc::StoreTemp(_))
            <==> StoreTempGeneric::spec_by_id(id) is Some,
        MemLibFunc::spec_by_id(id) matches Some(MemLibFunc::AlignTemps(_))
            <==> AlignTempsGeneric::spec_by_id(id) is Some,
        MemLibFunc::spec_by_id(id) matches Some(MemLibFunc::StoreLocal(_))
            <==> StoreLocalGeneric::spec_by_id(id) is Some,
        MemLibFunc::spec_by_id(id) matches Some(MemLibFunc::AllocLocals(_))
            <==> AllocLocalsGeneric::spec_by_id(id) is Some,
        MemLibFunc::spec_by_id(id) matches Some(MemLibFunc::Rename(_))
            <==> RenameGeneric::spec_by_id(id) is Some,
        MemLibFunc::spec_by_id(id) matches Some(MemLibFunc::Move(_))
            <==> MoveGeneric::spec_by_id(id) is Some,
{
    reveal_strlit("store_temp");
    reveal_strlit("align_temps");
    reveal_strlit("store_local");
    reveal_strlit("alloc_locals");
    reveal_strlit("rename");
    reveal_strlit("move");
    assert("align_temps"@[0] != "store_local"@[0]);
    assert("store_temp"@.len() != "align_temps"@.len());
    assert("store_temp"@.len() != "store_local"@.len());
    assert("store_temp"@.len() != "alloc_locals"@.len());
    assert("store_temp"@.len() != "rename"@.len());
    assert("store_temp"@.len() != "move"@.len());
    assert("align_temps"@.len() != "alloc_locals"@.len());
    assert("align_temps"@.len() != "rename"@.len());
    assert("align_temps"@.len() != "move"@.len());
    assert("store_local"@.len() != "alloc_locals"@.len());
    assert("store_local"@.len() != "rename"@.len());
    assert("store_local"@.len() != "move"@.len());
    assert("alloc_locals"@.len() != "rename"@.len());
    assert("alloc_locals"@.len() != "move"@.len());
    assert("rename"@.len() != "move"@.len());
}

/// The type recorded by a specialized memory-management libfunc, if its family takes one.
pub open spec fn recorded_type(c: MemConcreteLibFunc) -> Option<ConcreteTypeId> {
    match c {
        MemConcreteLibFunc::StoreTemp(c) => Some(c.ty),
        MemConcreteLibFunc::AlignTemps(c) => Some(c.ty),
        MemConcreteLibFunc::StoreLocal(c) => Some(c.ty),
        MemConcreteLibFunc::AllocLocals(_) => None,
        MemConcreteLibFunc::Rename(c) => Some(c.ty),
        MemConcreteLibFunc::Move(c) => Some(c.ty),
    }
}

/// A family that takes one type argument rejects no arguments and two type arguments with
/// `UnsupportedGenericArg`, and specializes with one type argument `a`, recording `a`.
pub proof fn lemma_single_type_arity(
    f: MemLibFunc,
    context: SpecializationContext,
    a: ConcreteTypeId,
    b: ConcreteTypeId,
    args: Seq<GenericArg>,
    r: Result<MemConcreteLibFunc, SpecializationError>,
)
    requires
        !(f is AllocLocals),
        f.spec_specialize(context, args, r),
    ensures
        args == Seq::<GenericArg>::empty() ==> r == Err::<MemConcreteLibFunc, SpecializationError>(
            SpecializationError::UnsupportedGenericArg,
        ),
        args == seq![GenericArg::Type(a), GenericArg::Type(b)] ==> r == Err::<
            MemConcreteLibFunc,
            SpecializationError,
        >(SpecializationError::UnsupportedGenericArg),
        args == seq![GenericArg::Type(a)] ==> r is Ok && recorded_type(r->Ok_0) == Some(a),
{
}

/// Every specialized memory-management libfunc has one outcome: one group of output
/// types, and fallthrough to branch 0.
pub proof fn lemma_mem_single_outcome(c: MemConcreteLibFunc)
    ensures
        c.spec_output_types().len() == 1,
        c.spec_fallthrough() == Some(0usize),
{
}

/// `store_temp`, `store_local`, `rename` and `move` hand the cells of one variable through
/// unchanged, and reject no variables or two variables with `InputError`.
pub proof fn lemma_pass_through_simulation(
    c: MemConcreteLibFunc,
    cells: Seq<MemCell>,
    a: Seq<MemCell>,
    b: Seq<MemCell>,
)
    requires
        c is StoreTemp || c is StoreLocal || c is Rename || c is Move,
    ensures
        c.spec_simulate(seq![cells]) == Ok::<Seq<Seq<MemCell>>, InputError>(seq![cells]),
        c.spec_simulate(seq![]) == Err::<Seq<Seq<MemCell>>, InputError>(
            InputError::WrongNumberOfArgs,
        ),
        c.spec_simulate(seq![a, b]) == Err::<Seq<Seq<MemCell>>, InputError>(
            InputError::WrongNumberOfArgs,
        ),
{
}

/// `align_temps` and `alloc_locals` map no variables to no variables, and reject any input
/// variable with `InputError`.
pub proof fn lemma_marker_simulation(c: MemConcreteLibFunc, inputs: Seq<Seq<MemCell>>)
    requires
        c is AlignTemps || c is AllocLocals,
    ensures
        c.spec_simulate(seq![]) == Ok::<Seq<Seq<MemCell>>, InputError>(seq![]),
        inputs.len() > 0 ==> c.spec_simulate(inputs) == Err::<Seq<Seq<MemCell>>, InputError>(
            InputError::WrongNumberOfArgs,
        ),
{
}

} // verus!
