use vstd::prelude::*;
use crate::felt::Felt;
use crate::memory::{cell_of, MemoryView, PyMemory};
use crate::relocatable::{PyMaybeRelocatable, PyRelocatable};

verus! {

/// The coprocessors a program may declare.
#[derive(Clone, Copy, Debug, PartialEq, Eq, Structural)]
pub enum BuiltinName {
    Output,
    Pedersen,
    RangeCheck,
    Ecdsa,
    Bitwise,
    EcOp,
    Keccak,
    Poseidon,
}

pub open spec fn builtin_name_spec(n: BuiltinName) -> Seq<char> {
    match n {
        BuiltinName::Output => "output"@,
        BuiltinName::Pedersen => "pedersen"@,
        BuiltinName::RangeCheck => "range_check"@,
        BuiltinName::Ecdsa => "ecdsa"@,
        BuiltinName::Bitwise => "bitwise"@,
        BuiltinName::EcOp => "ec_op"@,
        BuiltinName::Keccak => "keccak"@,
        BuiltinName::Poseidon => "poseidon"@,
    }
}

impl BuiltinName {
    /// The builtin's name as programs declare it.
    pub fn name(&self) -> (r: &'static str)
        ensures
            r@ == builtin_name_spec(*self),
    {
        match self {
            BuiltinName::Output => "output",
            BuiltinName::Pedersen => "pedersen",
            BuiltinName::RangeCheck => "range_check",
            BuiltinName::Ecdsa => "ecdsa",
            BuiltinName::Bitwise => "bitwise",
            BuiltinName::EcOp => "ec_op",
            BuiltinName::Keccak => "keccak",
            BuiltinName::Poseidon => "poseidon",
        }
    }
}

/// Errors of builtin bookkeeping.
#[derive(Clone, Copy, Debug, PartialEq, Eq, Structural)]
pub enum BuiltinError {
    /// The cell below the stack pointer holds no address.
    NoStopPointer(BuiltinName),
    /// The stop pointer points into another segment than the builtin's own.
    InvalidStopPointerIndex(BuiltinName),
    /// The stop pointer does not point right after the builtin's used cells.
    InvalidStopPointer(BuiltinName),
    /// A builtin that the program does not declare was found, in strict mode.
    UndeclaredBuiltin(BuiltinName),
    /// A cell of the signature builtin was written with no signature for it.
    MissingSignature(PyRelocatable),
}

/// One coprocessor: the segment it owns, whether the program declares it, and
/// the stop pointer found at the end of a run.
pub struct BuiltinRunner {
    pub name: BuiltinName,
    pub base: usize,
    pub included: bool,
    pub stop_ptr: Option<usize>,
    /// For the range-check builtin, the bound its cells are checked against.
    pub bound: Option<Felt>,
}

/// The bound of a range-check builtin whose values have `n_parts` parts of 16
/// bits: 2^(16 * n_parts), as the words of a field element.
pub open spec fn range_check_bound_of(n_parts: u32) -> Felt {
    let bit = 16 * n_parts as int;
    let w = (1u64 << ((bit % 64) as u64));
    Felt {
        w0: if bit / 64 == 0 { w } else { 0 },
        w1: if bit / 64 == 1 { w } else { 0 },
        w2: if bit / 64 == 2 { w } else { 0 },
        w3: if bit / 64 == 3 { w } else { 0 },
    }
}

/// What `final_stack` does to one builtin: the new stack pointer and the stop
/// pointer it records, or the error.
pub open spec fn final_stack_spec(
    name: BuiltinName,
    base: usize,
    included: bool,
    m: MemoryView,
    pointer: PyRelocatable,
) -> Result<(PyRelocatable, usize), BuiltinError> {
    if !included {
        Ok((pointer, 0))
    } else if pointer.offset == 0 {
        Err(BuiltinError::NoStopPointer(name))
    } else {
        let addr = PyRelocatable { segment_index: pointer.segment_index, offset: (pointer.offset - 1) as usize };
        match cell_of(m, addr) {
            Some(PyMaybeRelocatable::RelocatableValue(stop)) => if stop.segment_index as int != base as int {
                Err(BuiltinError::InvalidStopPointerIndex(name))
            } else if base >= m.len() || stop.offset != m[base as int].len() {
                Err(BuiltinError::InvalidStopPointer(name))
            } else {
                Ok((addr, stop.offset))
            },
            _ => Err(BuiltinError::NoStopPointer(name)),
        }
    }
}

impl BuiltinRunner {
    pub fn new(name: BuiltinName, base: usize, included: bool) -> (r: BuiltinRunner)
        ensures
            r.name == name,
            r.base == base,
            r.included == included,
            r.stop_ptr is None,
            r.bound is None,
    {
        BuiltinRunner { name, base, included, stop_ptr: None, bound: None }
    }

    /// A range-check builtin whose values have `n_parts` parts of 16 bits.
    pub fn new_range_check(base: usize, n_parts: u32, included: bool) -> (r: BuiltinRunner)
        requires
            n_parts <= 15,
        ensures
            r.name == BuiltinName::RangeCheck,
            r.base == base,
            r.included == included,
            r.stop_ptr is None,
            r.bound == Some(range_check_bound_of(n_parts)),
    {
        let bit: u32 = 16 * n_parts;
        let w: u64 = 1u64 << ((bit % 64) as u64);
        let idx = bit / 64;
        let bound = Felt {
            w0: if idx == 0 { w } else { 0 },
            w1: if idx == 1 { w } else { 0 },
            w2: if idx == 2 { w } else { 0 },
            w3: if idx == 3 { w } else { 0 },
        };
        BuiltinRunner { name: BuiltinName::RangeCheck, base, included, stop_ptr: None, bound: Some(bound) }
    }

    /// The pointers this builtin puts on the stack when a program starts: its
    /// base, when the program declares it.
    pub fn initial_stack(&self) -> (r: Vec<PyMaybeRelocatable>)
        requires
            self.base <= isize::MAX,
        ensures
            r@ == if self.included {
                seq![
                    PyMaybeRelocatable::RelocatableValue(
                        PyRelocatable { segment_index: self.base as isize, offset: 0 },
                    ),
                ]
            } else {
                Seq::<PyMaybeRelocatable>::empty()
            },
    {
        let mut r: Vec<PyMaybeRelocatable> = Vec::new();
        if self.included {
            r.push(
                PyMaybeRelocatable::RelocatableValue(
                    PyRelocatable { segment_index: self.base as isize, offset: 0 },
                ),
            );
        }
        proof {
            if self.included {
                assert(r@ =~= seq![
                    PyMaybeRelocatable::RelocatableValue(
                        PyRelocatable { segment_index: self.base as isize, offset: 0 },
                    ),
                ]);
            } else {
                assert(r@ =~= Seq::<PyMaybeRelocatable>::empty());
            }
        }
        r
    }

    /// Reads this builtin's stop pointer from the cell below `pointer`, checks
    /// that it points right after the builtin's used cells, records it, and
    /// returns the address of that cell. A builtin that the program does not
    /// declare takes nothing from the stack.
    pub fn final_stack(&mut self, memory: &PyMemory, pointer: PyRelocatable) -> (r: Result<
        PyRelocatable,
        BuiltinError,
    >)
        ensures
            final_stack_spec(old(self).name, old(self).base, old(self).included, memory@, pointer)
                matches Ok((p, s)) ==> r == Ok::<PyRelocatable, BuiltinError>(p)
                && final(self).stop_ptr == Some(s),
            final_stack_spec(old(self).name, old(self).base, old(self).included, memory@, pointer)
                matches Err(e) ==> r == Err::<PyRelocatable, BuiltinError>(e)
                && final(self).stop_ptr == old(self).stop_ptr,
            final(self).name == old(self).name,
            final(self).base == old(self).base,
            final(self).included == old(self).included,
            final(self).bound == old(self).bound,
    {
        if !self.included {
            self.stop_ptr = Some(0);
            return Ok(pointer);
        }
        if pointer.offset == 0 {
            return Err(BuiltinError::NoStopPointer(self.name));
        }
        let addr = PyRelocatable { segment_index: pointer.segment_index, offset: pointer.offset - 1 };
        match memory.get(&addr) {
            Some(PyMaybeRelocatable::RelocatableValue(stop)) => {
                if stop.segment_index < 0 || stop.segment_index as usize != self.base {
                    Err(BuiltinError::InvalidStopPointerIndex(self.name))
                } else {
                    match memory.get_segment_used_size(self.base) {
                        Some(used) => {
                            if stop.offset != used {
                                Err(BuiltinError::InvalidStopPointer(self.name))
                            } else {
                                self.stop_ptr = Some(stop.offset);
                                Ok(addr)
                            }
                        },
                        None => Err(BuiltinError::InvalidStopPointer(self.name)),
                    }
                }
            },
            _ => Err(BuiltinError::NoStopPointer(self.name)),
        }
    }
}

/// A builtin that the program declares and uses once takes exactly one slot from
/// the stack: handed the pointer right after its stop pointer, which points past
/// its single used cell, `final_stack` returns the pointer one slot below and
/// records that stop pointer.
pub proof fn lemma_final_stack_one_slot(
    name: BuiltinName,
    base: usize,
    m: MemoryView,
    pointer: PyRelocatable,
)
    requires
        base < m.len(),
        base <= isize::MAX,
        m[base as int].len() == 1,
        pointer.offset > 0,
        cell_of(m, PyRelocatable { segment_index: pointer.segment_index, offset: (pointer.offset - 1) as usize })
            == Some(PyMaybeRelocatable::RelocatableValue(PyRelocatable { segment_index: base as isize, offset: 1 })),
    ensures
        final_stack_spec(name, base, true, m, pointer) == Ok::<(PyRelocatable, usize), BuiltinError>(
            (PyRelocatable { segment_index: pointer.segment_index, offset: (pointer.offset - 1) as usize }, 1usize),
        ),
{
}

} // verus!
