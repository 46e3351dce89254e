use vstd::prelude::*;

verus! {

/// Identifier of a generic type (such as `felt` or `Array`), compared by its name.
#[derive(Clone, Debug, Hash)]
pub struct GenericTypeId {
    pub name: String,
}

impl GenericTypeId {
    pub fn from_string(name: &str) -> (r: Self)
        ensures
            r@ == name@,
    {
        GenericTypeId { name: name.to_owned() }
    }
}

impl View for GenericTypeId {
    type V = Seq<char>;

    open spec fn view(&self) -> Seq<char> {
        self.name@
    }
}

impl PartialEq for GenericTypeId {
    fn eq(&self, other: &GenericTypeId) -> (r: bool) {
        self.name == other.name
    }
}

impl vstd::std_specs::cmp::PartialEqSpecImpl for GenericTypeId {
    open spec fn obeys_eq_spec() -> bool {
        true
    }

    open spec fn eq_spec(&self, other: &GenericTypeId) -> bool {
        self@ == other@
    }
}

impl Eq for GenericTypeId {}

/// Identifier of a generic library function (such as `store_temp`), compared by its name.
#[derive(Clone, Debug, Hash)]
pub struct GenericLibFuncId {
    pub name: String,
}

impl GenericLibFuncId {
    pub fn from_string(name: &str) -> (r: Self)
        ensures
            r@ == name@,
    {
        GenericLibFuncId { name: name.to_owned() }
    }
}

impl View for GenericLibFuncId {
    type V = Seq<char>;

    open spec fn view(&self) -> Seq<char> {
        self.name@
    }
}

impl PartialEq for GenericLibFuncId {
    fn eq(&self, other: &GenericLibFuncId) -> (r: bool) {
        self.name == other.name
    }
}

impl vstd::std_specs::cmp::PartialEqSpecImpl for GenericLibFuncId {
    open spec fn obeys_eq_spec() -> bool {
        true
    }

    open spec fn eq_spec(&self, other: &GenericLibFuncId) -> bool {
        self@ == other@
    }
}

impl Eq for GenericLibFuncId {}

/// Identifier of a concrete (fully specialized) type: an interned handle.
#[derive(Clone, Copy, Debug, PartialEq, Eq, Hash, Structural)]
pub struct ConcreteTypeId {
    pub id: u64,
}

impl ConcreteTypeId {
    pub fn new(id: u64) -> (r: Self)
        ensures
            r.id == id,
    {
        ConcreteTypeId { id }
    }
}

/// Identifier of a user function of the program: an interned handle.
#[derive(Clone, Copy, Debug, PartialEq, Eq, Hash, Structural)]
pub struct FunctionId {
    pub id: u64,
}

impl FunctionId {
    pub fn new(id: u64) -> (r: Self)
        ensures
            r.id == id,
    {
        FunctionId { id }
    }
}

} // verus!
