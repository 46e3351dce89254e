use vstd::prelude::*;

use crate::error::{ExtensionError, InputError, SpecializationError};
use crate::ids::{ConcreteTypeId, FunctionId, GenericLibFuncId, GenericTypeId};
use crate::mem_cell::{cells_view, MemCell};
use crate::program::{Function, GenericArg};

verus! {

/// The functions declared by the program.
pub type FunctionMap = std::collections::HashMap<FunctionId, Function>;

/// What a concrete type is declared by: the generic type's name and the argument list.
pub type TypeKey = (Seq<char>, Seq<GenericArg>);

/// Whether two argument lists are equal, element by element.
pub fn args_equal(a: &[GenericArg], b: &[GenericArg]) -> (r: bool)
    ensures
        r == (a@ == b@),
{
    if a.len() != b.len() {
        return false;
    }
    let mut i: usize = 0;
    while i < a.len()
        invariant
            a@.len() == b@.len(),
            0 <= i <= a@.len(),
            forall|j: int| 0 <= j < i ==> a@[j] == b@[j],
        decreases a@.len() - i,
    {
        if a[i] != b[i] {
            return false;
        }
        i = i + 1;
    }
    assert(a@ =~= b@);
    true
}

/// Mapping from the arguments for generating a concrete type (the generic id and the
/// arguments) to the concrete id that points to it.
pub struct ConcreteTypeIdMap {
    entries: Vec<(GenericTypeId, Vec<GenericArg>, ConcreteTypeId)>,
    mapping: Ghost<Map<TypeKey, ConcreteTypeId>>,
}

impl View for ConcreteTypeIdMap {
    type V = Map<TypeKey, ConcreteTypeId>;

    closed spec fn view(&self) -> Map<TypeKey, ConcreteTypeId> {
        self.mapping@
    }
}

impl ConcreteTypeIdMap {
    spec fn key_at(&self, i: int) -> TypeKey {
        (self.entries@[i].0@, self.entries@[i].1@)
    }

    /// Each key is held by exactly one entry, and the entries are the mapping.
    pub closed spec fn wf(&self) -> bool {
        &&& forall|i: int|
            0 <= i < self.entries@.len() ==> {
                &&& self.mapping@.contains_key(#[trigger] self.key_at(i))
                &&& self.mapping@[self.key_at(i)] == self.entries@[i].2
            }
        &&& forall|k: TypeKey|
            #[trigger] self.mapping@.contains_key(k) ==> exists|i: int|
                0 <= i < self.entries@.len() && #[trigger] self.key_at(i) == k
        &&& forall|i: int, j: int|
            0 <= i < j < self.entries@.len() ==> #[trigger] self.key_at(i) != #[trigger] self.key_at(
                j,
            )
    }

    pub fn new() -> (r: Self)
        ensures
            r.wf(),
            r@ == Map::<TypeKey, ConcreteTypeId>::empty(),
    {
        ConcreteTypeIdMap { entries: Vec::new(), mapping: Ghost(Map::empty()) }
    }

    fn find(&self, id: &GenericTypeId, args: &[GenericArg]) -> (r: Option<usize>)
        ensures
            match r {
                Some(i) => i < self.entries@.len() && self.key_at(i as int) == (id@, args@),
                None => forall|i: int|
                    0 <= i < self.entries@.len() ==> #[trigger] self.key_at(i) != (id@, args@),
            },
    {
        let mut i: usize = 0;
        while i < self.entries.len()
            invariant
                0 <= i <= self.entries@.len(),
                forall|j: int| 0 <= j < i ==> #[trigger] self.key_at(j) != (id@, args@),
            decreases self.entries@.len() - i,
        {
            if self.entries[i].0 == *id && args_equal(self.entries[i].1.as_slice(), args) {
                return Some(i);
            }
            i = i + 1;
        }
        None
    }

    /// The concrete id registered for `(id, args)`, if any.
    pub fn get(&self, id: &GenericTypeId, args: &[GenericArg]) -> (r: Option<ConcreteTypeId>)
        requires
            self.wf(),
        ensures
            r == (if self@.contains_key((id@, args@)) {
                Some(self@[(id@, args@)])
            } else {
                None
            }),
    {
        match self.find(id, args) {
            Some(i) => {
                assert(self.mapping@.contains_key(self.key_at(i as int)));
                Some(self.entries[i].2)
            },
            None => {
                proof {
                    let k: TypeKey = (id@, args@);
                    if self.mapping@.contains_key(k) {
                        assert(exists|i: int| 0 <= i < self.entries@.len() && self.key_at(i) == k);
                    }
                }
                None
            },
        }
    }

    /// Registers `concrete` for `(id, args)`, replacing what was registered there before.
    pub fn insert(&mut self, id: GenericTypeId, args: Vec<GenericArg>, concrete: ConcreteTypeId)
        requires
            old(self).wf(),
        ensures
            final(self).wf(),
            final(self)@ == old(self)@.insert((id@, args@), concrete),
    {
        let ghost k: TypeKey = (id@, args@);
        let ghost before = *self;
        match self.find(&id, args.as_slice()) {
            Some(i) => {
                self.entries.set(i, (id, args, concrete));
                self.mapping = Ghost(self.mapping@.insert(k, concrete));
                assert forall|j: int| 0 <= j < self.entries@.len() && j != i implies #[trigger] self.key_at(j) == before.key_at(j) by {}
                assert forall|k2: TypeKey| #[trigger] self.mapping@.contains_key(k2) implies exists|j: int|
                    0 <= j < self.entries@.len() && #[trigger] self.key_at(j) == k2 by {
                    if k2 == k {
                        assert(self.key_at(i as int) == k2);
                    } else {
                        assert(before.mapping@.contains_key(k2));
                        let j = choose|j: int| 0 <= j < before.entries@.len() && before.key_at(j) == k2;
                        assert(self.key_at(j) == k2);
                    }
                }
            },
            None => {
                self.entries.push((id, args, concrete));
                self.mapping = Ghost(self.mapping@.insert(k, concrete));
                let ghost n: int = self.entries@.len() - 1;
                assert forall|j: int| 0 <= j < n implies #[trigger] self.key_at(j) == before.key_at(j) by {}
                assert(self.key_at(n) == k);
                assert forall|k2: TypeKey| #[trigger] self.mapping@.contains_key(k2) implies exists|j: int|
                    0 <= j < self.entries@.len() && #[trigger] self.key_at(j) == k2 by {
                    if k2 == k {
                        assert(self.key_at(n) == k2);
                    } else {
                        assert(before.mapping@.contains_key(k2));
                        let j = choose|j: int| 0 <= j < before.entries@.len() && before.key_at(j) == k2;
                        assert(self.key_at(j) == k2);
                    }
                }
            },
        }
    }
}

/// What looking up `(id, args)` among the declared `types` yields: the registered id, or
/// `TypeWasNotDeclared` carrying the key that was asked for.
pub open spec fn lookup_result(
    types: Map<TypeKey, ConcreteTypeId>,
    id: GenericTypeId,
    args: Seq<GenericArg>,
    r: Result<ConcreteTypeId, SpecializationError>,
) -> bool {
    match r {
        Ok(t) => types.contains_key((id@, args)) && t == types[(id@, args)],
        Err(e) => !types.contains_key((id@, args)) && (e matches SpecializationError::TypeWasNotDeclared(
            i,
            a,
        ) && i == id && a@ == args),
    }
}

/// The declared types after inserting each `(key, id)` of `inserts`, in order, into an
/// empty mapping (as `ConcreteTypeIdMap::new` and `ConcreteTypeIdMap::insert` do).
pub open spec fn declared_types(inserts: Seq<(TypeKey, ConcreteTypeId)>) -> Map<
    TypeKey,
    ConcreteTypeId,
>
    decreases inserts.len(),
{
    if inserts.len() == 0 {
        Map::empty()
    } else {
        declared_types(inserts.drop_last()).insert(inserts.last().0, inserts.last().1)
    }
}

/// Whether `i` is the last insertion of `k` in `inserts`.
pub open spec fn is_last_insert(inserts: Seq<(TypeKey, ConcreteTypeId)>, k: TypeKey, i: int) -> bool {
    &&& 0 <= i < inserts.len()
    &&& inserts[i].0 == k
    &&& forall|j: int| i < j < inserts.len() ==> inserts[j].0 != k
}

proof fn lemma_declared_types(inserts: Seq<(TypeKey, ConcreteTypeId)>, k: TypeKey)
    ensures
        (forall|i: int| 0 <= i < inserts.len() ==> inserts[i].0 != k) ==> !declared_types(
            inserts,
        ).contains_key(k),
        forall|i: int|
            is_last_insert(inserts, k, i) ==> declared_types(inserts).contains_key(k)
                && declared_types(inserts)[k] == inserts[i].1,
    decreases inserts.len(),
{
    if inserts.len() > 0 {
        let rest = inserts.drop_last();
        lemma_declared_types(rest, k);
        assert forall|i: int| is_last_insert(inserts, k, i) implies declared_types(inserts).contains_key(k)
            && declared_types(inserts)[k] == inserts[i].1 by {
            if i < inserts.len() - 1 {
                assert(is_last_insert(rest, k, i));
            }
        }
        if forall|i: int| 0 <= i < inserts.len() ==> inserts[i].0 != k {
            assert(inserts.last().0 != k);
            assert forall|i: int| 0 <= i < rest.len() implies rest[i].0 != k by {
                assert(inserts[i].0 != k);
            }
        }
    }
}

/// After any sequence of insertions, looking up `(id, args)` yields the id of the last
/// insertion of that key, and `TypeWasNotDeclared` for a key that was never inserted.
pub proof fn lemma_lookup_after_inserts(
    inserts: Seq<(TypeKey, ConcreteTypeId)>,
    id: GenericTypeId,
    args: Seq<GenericArg>,
    r: Result<ConcreteTypeId, SpecializationError>,
)
    requires
        lookup_result(declared_types(inserts), id, args, r),
    ensures
        forall|i: int|
            is_last_insert(inserts, (id@, args), i) ==> r == Ok::<
                ConcreteTypeId,
                SpecializationError,
            >(inserts[i].1),
        (forall|i: int| 0 <= i < inserts.len() ==> inserts[i].0 != (id@, args)) ==> (r matches Err(
            SpecializationError::TypeWasNotDeclared(i, a),
        ) && i == id && a@ == args),
{
    lemma_declared_types(inserts, (id@, args));
}

/// Context required for the specialization process.
pub struct SpecializationContext<'a> {
    pub functions: &'a FunctionMap,
    pub concrete_type_ids: &'a ConcreteTypeIdMap,
}

impl SpecializationContext<'_> {
    /// Returns the concrete type id, or an error if it is missing.
    pub fn get_concrete_type(&self, id: GenericTypeId, args: &[GenericArg]) -> (r: Result<
        ConcreteTypeId,
        SpecializationError,
    >)
        requires
            self.concrete_type_ids.wf(),
        ensures
            lookup_result(self.concrete_type_ids@, id, args@, r),
    {
        match self.concrete_type_ids.get(&id, args) {
            Some(t) => Ok(t),
            None => Err(SpecializationError::TypeWasNotDeclared(id, vstd::slice::slice_to_vec(args))),
        }
    }

    /// Returns the concrete id of a generic type wrapping the type of a concrete id.
    pub fn get_wrapped_concrete_type(&self, id: GenericTypeId, wrapped: ConcreteTypeId) -> (r: Result<
        ConcreteTypeId,
        SpecializationError,
    >)
        requires
            self.concrete_type_ids.wf(),
        ensures
            lookup_result(self.concrete_type_ids@, id, seq![GenericArg::Type(wrapped)], r),
    {
        let args = vec![GenericArg::Type(wrapped)];
        assert(args@ =~= seq![GenericArg::Type(wrapped)]);
        self.get_concrete_type(id, args.as_slice())
    }
}

/// The output types of each branch, as plain sequences.
pub open spec fn branches_view(b: Seq<Vec<ConcreteTypeId>>) -> Seq<Seq<ConcreteTypeId>> {
    b.map_values(|v: Vec<ConcreteTypeId>| v@)
}

/// A simulation result, with the cells as plain sequences.
pub open spec fn simulation_view(r: Result<Vec<Vec<MemCell>>, InputError>) -> Result<
    Seq<Seq<MemCell>>,
    InputError,
> {
    match r {
        Ok(v) => Ok(cells_view(v@)),
        Err(e) => Err(e),
    }
}

/// A specialized library function.
pub trait ConcreteLibFunc {
    spec fn spec_input_types(&self) -> Seq<ConcreteTypeId>;

    spec fn spec_output_types(&self) -> Seq<Seq<ConcreteTypeId>>;

    spec fn spec_fallthrough(&self) -> Option<usize>;

    spec fn spec_simulate(&self, inputs: Seq<Seq<MemCell>>) -> Result<
        Seq<Seq<MemCell>>,
        InputError,
    >;

    /// The input types for calling the library function.
    fn input_types(&self) -> (r: Vec<ConcreteTypeId>)
        ensures
            r@ == self.spec_input_types(),
    ;

    /// The output types returning from the library function, per branch.
    fn output_types(&self) -> (r: Vec<Vec<ConcreteTypeId>>)
        ensures
            branches_view(r@) == self.spec_output_types(),
    ;

    /// The index of the fallthrough branch of the library function, if any.
    fn fallthrough(&self) -> (r: Option<usize>)
        ensures
            r == self.spec_fallthrough(),
    ;

    /// The cells of the outputs, given the cells of the inputs.
    fn simulate(&self, inputs: Vec<Vec<MemCell>>) -> (r: Result<Vec<Vec<MemCell>>, InputError>)
        ensures
            simulation_view(r) == self.spec_simulate(cells_view(inputs@)),
    ;
}

/// A specialized library function with a single outcome.
pub trait NonBranchConcreteLibFunc {
    spec fn spec_non_branch_input_types(&self) -> Seq<ConcreteTypeId>;

    spec fn spec_non_branch_output_types(&self) -> Seq<ConcreteTypeId>;

    spec fn spec_non_branch_simulate(&self, inputs: Seq<Seq<MemCell>>) -> Result<
        Seq<Seq<MemCell>>,
        InputError,
    >;

    fn input_types(&self) -> (r: Vec<ConcreteTypeId>)
        ensures
            r@ == self.spec_non_branch_input_types(),
    ;

    fn output_types(&self) -> (r: Vec<ConcreteTypeId>)
        ensures
            r@ == self.spec_non_branch_output_types(),
    ;

    fn non_branch_simulate(&self, inputs: Vec<Vec<MemCell>>) -> (r: Result<
        Vec<Vec<MemCell>>,
        InputError,
    >)
        ensures
            simulation_view(r) == self.spec_non_branch_simulate(cells_view(inputs@)),
    ;
}

impl<TNonBranchConcreteLibFunc: NonBranchConcreteLibFunc> ConcreteLibFunc for TNonBranchConcreteLibFunc {
    open spec fn spec_input_types(&self) -> Seq<ConcreteTypeId> {
        self.spec_non_branch_input_types()
    }

    open spec fn spec_output_types(&self) -> Seq<Seq<ConcreteTypeId>> {
        seq![self.spec_non_branch_output_types()]
    }

    open spec fn spec_fallthrough(&self) -> Option<usize> {
        Some(0)
    }

    open spec fn spec_simulate(&self, inputs: Seq<Seq<MemCell>>) -> Result<
        Seq<Seq<MemCell>>,
        InputError,
    > {
        self.spec_non_branch_simulate(inputs)
    }

    fn input_types(&self) -> (r: Vec<ConcreteTypeId>) {
        <Self as NonBranchConcreteLibFunc>::input_types(self)
    }

    fn output_types(&self) -> (r: Vec<Vec<ConcreteTypeId>>) {
        let r = vec![<Self as NonBranchConcreteLibFunc>::output_types(self)];
        assert(branches_view(r@) =~= seq![self.spec_non_branch_output_types()]);
        r
    }

    fn fallthrough(&self) -> (r: Option<usize>) {
        Some(0)
    }

    fn simulate(&self, inputs: Vec<Vec<MemCell>>) -> (r: Result<Vec<Vec<MemCell>>, InputError>) {
        self.non_branch_simulate(inputs)
    }
}

/// A single-outcome libfunc reports exactly one group of output types, its own, and
/// falls through to branch 0.
pub proof fn lemma_non_branch_single_outcome<T: NonBranchConcreteLibFunc>(f: &T)
    ensures
        f.spec_output_types().len() == 1,
        f.spec_output_types()[0] == f.spec_non_branch_output_types(),
        f.spec_fallthrough() == Some(0usize),
{
}

/// A libfunc specialization generator.
pub trait GenericLibFunc: Sized {
    type Concrete: ConcreteLibFunc;

    spec fn spec_by_id(id: Seq<char>) -> Option<Self>;

    /// Whether `r` is what specializing `self` with `args` in `context` yields.
    spec fn spec_specialize(
        &self,
        context: SpecializationContext,
        args: Seq<GenericArg>,
        r: Result<Self::Concrete, SpecializationError>,
    ) -> bool;

    /// Instantiates the libfunc by id.
    fn by_id(id: &GenericLibFuncId) -> (r: Option<Self>)
        ensures
            r == Self::spec_by_id(id@),
    ;

    /// Creates the specialization with the template arguments.
    fn specialize(&self, context: SpecializationContext<'_>, args: &[GenericArg]) -> (r: Result<
        Self::Concrete,
        SpecializationError,
    >)
        requires
            context.concrete_type_ids.wf(),
        ensures
            self.spec_specialize(context, args@, r),
    ;
}

/// Whether `r` is what specializing the libfunc of id `id` with `args` yields: the error
/// `UnsupportedId` where no libfunc owns the id, else that libfunc's own result, with an
/// error attributed to the id.
pub open spec fn specialize_by_id_result<T: GenericLibFunc>(
    context: SpecializationContext,
    id: Seq<char>,
    args: Seq<GenericArg>,
    r: Result<T::Concrete, ExtensionError>,
) -> bool {
    match T::spec_by_id(id) {
        None => r matches Err(ExtensionError::LibFuncSpecialization { libfunc_id, error }) && libfunc_id@
            == id && error is UnsupportedId,
        Some(f) => match r {
            Ok(c) => f.spec_specialize(context, args, Ok(c)),
            Err(ExtensionError::LibFuncSpecialization { libfunc_id, error }) => libfunc_id@ == id
                && f.spec_specialize(context, args, Err(error)),
        },
    }
}

/// Helper methods on every libfunc specialization generator.
pub trait GenericLibFuncEx: GenericLibFunc {
    fn specialize_by_id(
        context: SpecializationContext<'_>,
        libfunc_id: &GenericLibFuncId,
        args: &[GenericArg],
    ) -> (r: Result<Self::Concrete, ExtensionError>)
        requires
            context.concrete_type_ids.wf(),
        ensures
            specialize_by_id_result::<Self>(context, libfunc_id@, args@, r),
    ;
}

impl<TGenericLibFunc: GenericLibFunc> GenericLibFuncEx for TGenericLibFunc {
    fn specialize_by_id(
        context: SpecializationContext<'_>,
        libfunc_id: &GenericLibFuncId,
        args: &[GenericArg],
    ) -> (r: Result<Self::Concrete, ExtensionError>) {
        match Self::by_id(libfunc_id) {
            None => Err(
                ExtensionError::LibFuncSpecialization {
                    libfunc_id: GenericLibFuncId { name: libfunc_id.name.clone() },
                    error: SpecializationError::UnsupportedId,
                },
            ),
            Some(f) => match f.specialize(context, args) {
                Ok(c) => Ok(c),
                Err(error) => Err(
                    ExtensionError::LibFuncSpecialization {
                        libfunc_id: GenericLibFuncId { name: libfunc_id.name.clone() },
                        error,
                    },
                ),
            },
        }
    }
}

/// A specialization generator with a single fixed id.
pub trait NamedLibFunc: Sized {
    type Concrete: ConcreteLibFunc;

    /// The id of this libfunc.
    spec fn spec_name() -> Seq<char>;

    spec fn spec_new() -> Self;

    spec fn spec_named_specialize(
        &self,
        context: SpecializationContext,
        args: Seq<GenericArg>,
        r: Result<Self::Concrete, SpecializationError>,
    ) -> bool;

    fn name() -> (r: &'static str)
        ensures
            r@ == Self::spec_name(),
    ;

    fn new() -> (r: Self)
        ensures
            r == Self::spec_new(),
    ;

    /// Creates the specialization with the template arguments.
    fn specialize(&self, context: SpecializationContext<'_>, args: &[GenericArg]) -> (r: Result<
        Self::Concrete,
        SpecializationError,
    >)
        requires
            context.concrete_type_ids.wf(),
        ensures
            self.spec_named_specialize(context, args@, r),
    ;
}

impl<TNamedLibFunc: NamedLibFunc> GenericLibFunc for TNamedLibFunc {
    type Concrete = <Self as NamedLibFunc>::Concrete;

    open spec fn spec_by_id(id: Seq<char>) -> Option<Self> {
        if id == Self::spec_name() {
            Some(Self::spec_new())
        } else {
            None
        }
    }

    open spec fn spec_specialize(
        &self,
        context: SpecializationContext,
        args: Seq<GenericArg>,
        r: Result<Self::Concrete, SpecializationError>,
    ) -> bool {
        self.spec_named_specialize(context, args, r)
    }

    fn by_id(id: &GenericLibFuncId) -> (r: Option<Self>) {
        if *id == GenericLibFuncId::from_string(Self::name()) {
            Some(Self::new())
        } else {
            None
        }
    }

    fn specialize(&self, context: SpecializationContext<'_>, args: &[GenericArg]) -> (r: Result<
        Self::Concrete,
        SpecializationError,
    >) {
        <Self as NamedLibFunc>::specialize(self, context, args)
    }
}

/// A specialization generator with a single fixed id and no generic arguments.
pub trait NoGenericArgsGenericLibFunc: Sized {
    type Concrete: ConcreteLibFunc;

    /// The id of this libfunc.
    spec fn spec_name() -> Seq<char>;

    spec fn spec_new() -> Self;

    spec fn spec_no_args_specialize(
        &self,
        context: SpecializationContext,
        r: Result<Self::Concrete, SpecializationError>,
    ) -> bool;

    fn name() -> (r: &'static str)
        ensures
            r@ == Self::spec_name(),
    ;

    fn new() -> (r: Self)
        ensures
            r == Self::spec_new(),
    ;

    fn specialize(&self, context: SpecializationContext<'_>) -> (r: Result<
        Self::Concrete,
        SpecializationError,
    >)
        requires
            context.concrete_type_ids.wf(),
        ensures
            self.spec_no_args_specialize(context, r),
    ;
}

impl<T: NoGenericArgsGenericLibFunc> NamedLibFunc for T {
    type Concrete = <Self as NoGenericArgsGenericLibFunc>::Concrete;

    open spec fn spec_name() -> Seq<char> {
        <Self as NoGenericArgsGenericLibFunc>::spec_name()
    }

    open spec fn spec_new() -> Self {
        <Self as NoGenericArgsGenericLibFunc>::spec_new()
    }

    open spec fn spec_named_specialize(
        &self,
        context: SpecializationContext,
        args: Seq<GenericArg>,
        r: Result<Self::Concrete, SpecializationError>,
    ) -> bool {
        if args.len() == 0 {
            self.spec_no_args_specialize(context, r)
        } else {
            r matches Err(SpecializationError::WrongNumberOfGenericArgs)
        }
    }

    fn name() -> (r: &'static str) {
        <Self as NoGenericArgsGenericLibFunc>::name()
    }

    fn new() -> (r: Self) {
        <Self as NoGenericArgsGenericLibFunc>::new()
    }

    fn specialize(&self, context: SpecializationContext<'_>, args: &[GenericArg]) -> (r: Result<
        Self::Concrete,
        SpecializationError,
    >) {
        if args.is_empty() {
            <Self as NoGenericArgsGenericLibFunc>::specialize(self, context)
        } else {
            Err(SpecializationError::WrongNumberOfGenericArgs)
        }
    }
}

/// A libfunc without generic arguments rejects every non-empty argument list with
/// `WrongNumberOfGenericArgs`.
pub proof fn lemma_no_args_rejects_args<T: NoGenericArgsGenericLibFunc>(
    f: &T,
    context: SpecializationContext,
    args: Seq<GenericArg>,
    r: Result<<T as GenericLibFunc>::Concrete, SpecializationError>,
)
    requires
        args.len() > 0,
        f.spec_specialize(context, args, r),
    ensures
        r matches Err(SpecializationError::WrongNumberOfGenericArgs),
{
}

} // verus!
