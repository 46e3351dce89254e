use vstd::prelude::*;

verus! {

/// The atomic unit of simulated runtime memory.
#[derive(Clone, Copy, Debug, PartialEq, Eq, Hash, Structural)]
pub struct MemCell {
    pub value: i128,
}

impl MemCell {
    pub fn new(value: i128) -> (r: Self)
        ensures
            r.value == value,
    {
        MemCell { value }
    }
}

/// The cells of each variable, as plain sequences.
pub open spec fn cells_view(vars: Seq<Vec<MemCell>>) -> Seq<Seq<MemCell>> {
    vars.map_values(|v: Vec<MemCell>| v@)
}

} // verus!
