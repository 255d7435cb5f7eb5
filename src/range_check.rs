use vstd::prelude::*;
use crate::builtins::{BuiltinName, BuiltinRunner};
use crate::felt::Felt;

verus! {

/// What hints see of the range-check builtin: its bound, if it has one.
#[derive(Clone, Copy, Debug, PartialEq, Eq, Structural)]
pub struct PyRangeCheck {
    pub bound: Option<Felt>,
}

impl PyRangeCheck {
    pub fn new(value: Option<Felt>) -> (r: Self)
        ensures
            r.bound == value,
    {
        Self { bound: value }
    }

    /// The view of the first range-check builtin among `builtins`; one without a
    /// bound where there is none.
    pub fn from_builtins(builtins: &Vec<BuiltinRunner>) -> (r: Self)
        ensures
            (exists|i: int| 0 <= i < builtins@.len() && (#[trigger] builtins@[i]).name == BuiltinName::RangeCheck) ==> exists|i: int|
                0 <= i < builtins@.len() && (#[trigger] builtins@[i]).name == BuiltinName::RangeCheck
                && (forall|j: int| 0 <= j < i ==> (#[trigger] builtins@[j]).name != BuiltinName::RangeCheck)
                && r.bound == builtins@[i].bound,
            (forall|i: int| 0 <= i < builtins@.len() ==> (#[trigger] builtins@[i]).name != BuiltinName::RangeCheck) ==> r.bound is None,
    {
        let mut i: usize = 0;
        while i < builtins.len()
            invariant
                i <= builtins@.len(),
                forall|j: int| 0 <= j < i ==> (#[trigger] builtins@[j]).name != BuiltinName::RangeCheck,
            decreases builtins.len() - i,
        {
            if builtins[i].name == BuiltinName::RangeCheck {
                return Self { bound: builtins[i].bound };
            }
            i = i + 1;
        }
        Self { bound: None }
    }
}

} // verus!
