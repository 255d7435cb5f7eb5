use vstd::prelude::*;

verus! {

/// An optional budget of VM steps; `None` stands for an unlimited budget.
pub struct RunResource {
    pub steps: Option<i32>,
}

impl RunResource {
    /// Whether a budget was given and nothing of it is left.
    pub open spec fn is_consumed(&self) -> bool {
        match self.steps {
            Some(s) => s <= 0,
            None => false,
        }
    }

    pub fn new(steps: Option<i32>) -> (r: Self)
        ensures
            r.steps == steps,
    {
        Self { steps }
    }

    /// Returns true if the resources were consumed.
    pub fn consumed(&self) -> (r: bool)
        ensures
            r == self.is_consumed(),
    {
        match self.steps {
            Some(s) => s <= 0,
            None => false,
        }
    }

    /// Consumes one step of the budget, if there is one.
    pub fn consume_step(&mut self)
        requires
            old(self).steps matches Some(s) ==> s > i32::MIN,
        ensures
            final(self).steps == match old(self).steps {
                Some(s) => Some((s - 1) as i32),
                None => None,
            },
    {
        match self.steps {
            Some(s) => {
                self.steps = Some(s - 1);
            },
            None => {},
        }
    }
}

} // verus!
