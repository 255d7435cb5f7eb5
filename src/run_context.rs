use vstd::prelude::*;
use crate::relocatable::PyRelocatable;

verus! {

/// The registers: program counter, allocation pointer and frame pointer.
#[derive(Clone, Copy, Debug, PartialEq, Eq, Structural)]
pub struct PyRunContext {
    pub pc: PyRelocatable,
    pub ap: PyRelocatable,
    pub fp: PyRelocatable,
}

impl PyRunContext {
    pub fn new(pc: PyRelocatable, ap: PyRelocatable, fp: PyRelocatable) -> (r: PyRunContext)
        ensures
            r.pc == pc && r.ap == ap && r.fp == fp,
    {
        PyRunContext { pc, ap, fp }
    }

    pub fn pc(&self) -> (r: PyRelocatable)
        ensures
            r == self.pc,
    {
        self.pc
    }

    pub fn ap(&self) -> (r: PyRelocatable)
        ensures
            r == self.ap,
    {
        self.ap
    }

    pub fn fp(&self) -> (r: PyRelocatable)
        ensures
            r == self.fp,
    {
        self.fp
    }
}

} // verus!
