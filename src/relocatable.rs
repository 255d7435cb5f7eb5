use vstd::prelude::*;
use crate::felt::Felt;

verus! {

/// An address before relocation: a segment and an offset inside it.
#[derive(Clone, Copy, Debug, PartialEq, Eq, Structural, Hash)]
pub struct PyRelocatable {
    pub segment_index: isize,
    pub offset: usize,
}

/// A value held in memory: a field element or an address.
#[derive(Clone, Copy, Debug, PartialEq, Eq, Structural, Hash)]
pub enum PyMaybeRelocatable {
    Int(Felt),
    RelocatableValue(PyRelocatable),
}

/// The comparison asked of two addresses.
#[derive(Clone, Copy, Debug, PartialEq, Eq, Structural)]
pub enum CompareOp {
    Lt,
    Le,
    Eq,
    Ne,
    Gt,
    Ge,
}

/// Errors of address arithmetic.
#[derive(Clone, Copy, Debug, PartialEq, Eq, Structural)]
pub enum RelocatableError {
    /// Addresses of different segments cannot be ordered or subtracted.
    DifferentSegments,
    /// The offset would leave the range of offsets.
    OffsetOutOfRange,
}

pub open spec fn compare_spec(a: PyRelocatable, b: PyRelocatable, op: CompareOp) -> Result<
    bool,
    RelocatableError,
> {
    match op {
        CompareOp::Eq => Ok(a == b),
        CompareOp::Ne => Ok(a != b),
        _ => if a.segment_index != b.segment_index {
            Err(RelocatableError::DifferentSegments)
        } else {
            match op {
                CompareOp::Lt => Ok(a.offset < b.offset),
                CompareOp::Le => Ok(a.offset <= b.offset),
                CompareOp::Gt => Ok(a.offset > b.offset),
                _ => Ok(a.offset >= b.offset),
            }
        },
    }
}

impl PyRelocatable {
    pub fn new(tuple: (isize, usize)) -> (r: PyRelocatable)
        ensures
            r.segment_index == tuple.0,
            r.offset == tuple.1,
    {
        PyRelocatable { segment_index: tuple.0, offset: tuple.1 }
    }

    /// The address `value` cells further in the same segment.
    pub fn add(&self, value: usize) -> (r: Result<PyRelocatable, RelocatableError>)
        ensures
            r is Ok <==> self.offset + value <= usize::MAX,
            r matches Ok(a) ==> a.segment_index == self.segment_index && a.offset == self.offset
                + value,
            r matches Err(e) ==> e == RelocatableError::OffsetOutOfRange,
    {
        match self.offset.checked_add(value) {
            Some(offset) => Ok(PyRelocatable { segment_index: self.segment_index, offset }),
            None => Err(RelocatableError::OffsetOutOfRange),
        }
    }

    /// Subtracts a number of cells (giving an address) or an address of the same
    /// segment that does not lie after this one (giving their distance).
    pub fn sub(&self, value: &PyMaybeRelocatable) -> (r: Result<
        PyMaybeRelocatable,
        RelocatableError,
    >)
        requires
            value matches PyMaybeRelocatable::Int(f) ==> f.wf(),
        ensures
            match *value {
                PyMaybeRelocatable::Int(f) => if f.value() <= self.offset {
                    r == Ok::<PyMaybeRelocatable, RelocatableError>(
                        PyMaybeRelocatable::RelocatableValue(
                            PyRelocatable {
                                segment_index: self.segment_index,
                                offset: (self.offset - f.value()) as usize,
                            },
                        ),
                    )
                } else {
                    r == Err::<PyMaybeRelocatable, RelocatableError>(
                        RelocatableError::OffsetOutOfRange,
                    )
                },
                PyMaybeRelocatable::RelocatableValue(b) => if b.segment_index
                    != self.segment_index {
                    r == Err::<PyMaybeRelocatable, RelocatableError>(
                        RelocatableError::DifferentSegments,
                    )
                } else if b.offset > self.offset {
                    r == Err::<PyMaybeRelocatable, RelocatableError>(
                        RelocatableError::OffsetOutOfRange,
                    )
                } else {
                    r matches Ok(PyMaybeRelocatable::Int(d)) && d.wf() && d.value() == self.offset
                        - b.offset
                },
            },
    {
        match value {
            PyMaybeRelocatable::Int(f) => match f.to_usize() {
                Some(n) => {
                    if n <= self.offset {
                        Ok(
                            PyMaybeRelocatable::RelocatableValue(
                                PyRelocatable {
                                    segment_index: self.segment_index,
                                    offset: self.offset - n,
                                },
                            ),
                        )
                    } else {
                        Err(RelocatableError::OffsetOutOfRange)
                    }
                },
                None => Err(RelocatableError::OffsetOutOfRange),
            },
            PyMaybeRelocatable::RelocatableValue(b) => {
                if b.segment_index != self.segment_index {
                    Err(RelocatableError::DifferentSegments)
                } else if b.offset > self.offset {
                    Err(RelocatableError::OffsetOutOfRange)
                } else {
                    Ok(PyMaybeRelocatable::Int(Felt::from_u64((self.offset - b.offset) as u64)))
                }
            },
        }
    }

    /// Compares two addresses. Equality holds of any two; an order only of two
    /// addresses of one segment.
    pub fn compare(&self, other: &PyRelocatable, op: CompareOp) -> (r: Result<
        bool,
        RelocatableError,
    >)
        ensures
            r == compare_spec(*self, *other, op),
    {
        match op {
            CompareOp::Eq => Ok(self.segment_index == other.segment_index && self.offset
                == other.offset),
            CompareOp::Ne => Ok(self.segment_index != other.segment_index || self.offset
                != other.offset),
            _ => {
                if self.segment_index != other.segment_index {
                    Err(RelocatableError::DifferentSegments)
                } else {
                    match op {
                        CompareOp::Lt => Ok(self.offset < other.offset),
                        CompareOp::Le => Ok(self.offset <= other.offset),
                        CompareOp::Gt => Ok(self.offset > other.offset),
                        _ => Ok(self.offset >= other.offset),
                    }
                }
            },
        }
    }
}

impl PyMaybeRelocatable {
    /// Field elements are canonical.
    pub open spec fn wf(&self) -> bool {
        match self {
            PyMaybeRelocatable::Int(f) => f.wf(),
            PyMaybeRelocatable::RelocatableValue(_) => true,
        }
    }

    pub fn get_relocatable(&self) -> (r: Option<PyRelocatable>)
        ensures
            r == match *self {
                PyMaybeRelocatable::RelocatableValue(a) => Some(a),
                PyMaybeRelocatable::Int(_) => None::<PyRelocatable>,
            },
    {
        match self {
            PyMaybeRelocatable::RelocatableValue(a) => Some(*a),
            PyMaybeRelocatable::Int(_) => None,
        }
    }
}

} // verus!
