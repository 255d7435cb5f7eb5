use vstd::prelude::*;
use crate::utils::builtin_key;
use crate::builtins::{builtin_name_spec, final_stack_spec, BuiltinError, BuiltinName, BuiltinRunner};
use crate::memory::{cell_of, insert_ok, insert_spec, range_written, range_values, MemoryError, MemoryView, PyMemory};
use crate::relocatable::{PyMaybeRelocatable, PyRelocatable};
use crate::run_context::PyRunContext;
use crate::ecdsa::{get_signature, signature_of, SignaturePair};

verus! {

/// The machine: its memory, its registers, its builtins and the trace of the
/// registers before each executed step.
pub struct PyVM {
    pub memory: PyMemory,
    pub run_context: PyRunContext,
    pub builtin_runners: Vec<BuiltinRunner>,
    pub trace: Option<Vec<PyRunContext>>,
    /// The signatures handed to the signature builtin, by the address of the
    /// cell they sign.
    pub signatures: Vec<(PyRelocatable, SignaturePair)>,
    pub current_step: usize,
    /// The index, within its offset's list, of the hint that failed last.
    pub failed_hint_index: Option<usize>,
}

/// How the native hint handlers took a hint.
#[derive(Clone, Copy, Debug, PartialEq, Eq, Structural)]
pub enum NativeHintOutcome {
    /// A native handler ran it.
    Executed,
    /// No native handler knows it: its script is to be run.
    Unknown,
    /// A native handler ran it and failed.
    Failed,
}

/// A failed hint, with its index within the hints of its offset.
#[derive(Clone, Copy, Debug, PartialEq, Eq, Structural)]
pub enum HintError {
    /// A native handler failed.
    Native(usize),
    /// The script failed.
    Script(usize),
}

/// What the final-stack pass gives: the stack pointer it ends on and each
/// builtin's stop pointer, in declaration order. The pass runs from the last
/// declared builtin to the first.
pub open spec fn final_stacks_spec(
    bs: Seq<BuiltinRunner>,
    m: MemoryView,
    pointer: PyRelocatable,
    strict: bool,
) -> Result<(PyRelocatable, Seq<usize>), BuiltinError>
    decreases bs.len(),
{
    if bs.len() == 0 {
        Ok((pointer, Seq::empty()))
    } else {
        let b = bs.last();
        if strict && !b.included {
            Err(BuiltinError::UndeclaredBuiltin(b.name))
        } else {
            match final_stack_spec(b.name, b.base, b.included, m, pointer) {
                Ok((p, s)) => match final_stacks_spec(bs.drop_last(), m, p, strict) {
                    Ok((p2, stops)) => Ok((p2, stops.push(s))),
                    Err(e) => Err(e),
                },
                Err(e) => Err(e),
            }
        }
    }
}

pub open spec fn initial_pointer(b: BuiltinRunner) -> PyMaybeRelocatable {
    PyMaybeRelocatable::RelocatableValue(PyRelocatable { segment_index: b.base as isize, offset: 0 })
}

/// The pointers the declared builtins put on the stack, in declaration order.
pub open spec fn program_initial_stack(bs: Seq<BuiltinRunner>) -> Seq<PyMaybeRelocatable>
    decreases bs.len(),
{
    if bs.len() == 0 {
        Seq::empty()
    } else if bs.last().included {
        program_initial_stack(bs.drop_last()).push(initial_pointer(bs.last()))
    } else {
        program_initial_stack(bs.drop_last())
    }
}

/// The number of cells of a segment that were never written.
pub open spec fn holes_in(s: Seq<Option<PyMaybeRelocatable>>) -> int
    decreases s.len(),
{
    if s.len() == 0 {
        0
    } else {
        holes_in(s.drop_last()) + if s.last() is None { 1int } else { 0int }
    }
}

/// The number of cells of the first `k` segments that were never written.
pub open spec fn holes_upto(m: MemoryView, k: int) -> int
    decreases k,
{
    if k <= 0 {
        0
    } else {
        holes_upto(m, k - 1) + holes_in(m[k - 1])
    }
}

pub proof fn lemma_holes_in_bounded(s: Seq<Option<PyMaybeRelocatable>>)
    ensures
        0 <= holes_in(s) <= s.len(),
    decreases s.len(),
{
    if s.len() > 0 {
        lemma_holes_in_bounded(s.drop_last());
    }
}

/// What a run has used: steps taken, cells never written, and the cells each
/// builtin used.
pub struct PyExecutionResources {
    pub n_steps: usize,
    pub n_memory_holes: usize,
    pub builtin_instance_counter: Vec<(BuiltinName, usize)>,
}

impl PyExecutionResources {
    /// The cells each builtin used, keyed by the builtin's name followed by
    /// `_builtin`.
    pub fn builtin_instance_counter(&self) -> (r: Vec<(String, usize)>)
        ensures
            r@.len() == self.builtin_instance_counter@.len(),
            forall|i: int| 0 <= i < r@.len() ==> (#[trigger] r@[i]).0@ == builtin_name_spec(
                self.builtin_instance_counter@[i].0,
            ) + "_builtin"@ && r@[i].1 == self.builtin_instance_counter@[i].1,
    {
        let mut r: Vec<(String, usize)> = Vec::new();
        let mut i: usize = 0;
        while i < self.builtin_instance_counter.len()
            invariant
                i <= self.builtin_instance_counter@.len(),
                r@.len() == i,
                forall|j: int| 0 <= j < i ==> (#[trigger] r@[j]).0@ == builtin_name_spec(
                    self.builtin_instance_counter@[j].0,
                ) + "_builtin"@ && r@[j].1 == self.builtin_instance_counter@[j].1,
            decreases self.builtin_instance_counter.len() - i,
        {
            let (name, count) = self.builtin_instance_counter[i];
            r.push((builtin_key(name.name()), count));
            i = i + 1;
        }
        r
    }
}

/// Every written public-key cell (even offset) of a signature builtin's segment
/// has a signature.
pub open spec fn signatures_complete(bs: Seq<BuiltinRunner>, m: MemoryView, sigs: Seq<(PyRelocatable, SignaturePair)>) -> bool {
    forall|i: int, j: int|
        0 <= i < bs.len() && bs[i].name == BuiltinName::Ecdsa && bs[i].base < m.len() && 0 <= j < m[bs[i].base as int].len()
            && j % 2 == 0 && (#[trigger] m[bs[i].base as int][j]) is Some ==> signature_of(
            sigs,
            PyRelocatable { segment_index: bs[i].base as isize, offset: j as usize },
        ) is Some
}

/// A builtin's name and the number of cells of its segment that were used.
pub open spec fn builtin_usage(b: BuiltinRunner, m: MemoryView) -> (BuiltinName, usize) {
    (b.name, if b.base < m.len() {
        m[b.base as int].len() as usize
    } else {
        0usize
    })
}

pub open spec fn builtins_wf(bs: Seq<BuiltinRunner>) -> bool {
    forall|i: int| 0 <= i < bs.len() ==> (#[trigger] bs[i]).base <= isize::MAX
}

impl PyVM {
    pub fn new(trace_enabled: bool) -> (r: PyVM)
        ensures
            r.memory@ == Seq::<Seq<Option<PyMaybeRelocatable>>>::empty(),
            r.run_context == (PyRunContext {
                pc: PyRelocatable { segment_index: 0, offset: 0 },
                ap: PyRelocatable { segment_index: 1, offset: 0 },
                fp: PyRelocatable { segment_index: 1, offset: 0 },
            }),
            r.builtin_runners@.len() == 0,
            r.trace is Some <==> trace_enabled,
            r.trace matches Some(t) ==> t@.len() == 0,
            r.signatures@.len() == 0,
            r.current_step == 0,
            r.failed_hint_index is None,
    {
        let pc = PyRelocatable { segment_index: 0, offset: 0 };
        let ap = PyRelocatable { segment_index: 1, offset: 0 };
        PyVM {
            memory: PyMemory::new(),
            run_context: PyRunContext { pc, ap, fp: ap },
            builtin_runners: Vec::new(),
            trace: if trace_enabled {
                Some(Vec::new())
            } else {
                None
            },
            signatures: Vec::new(),
            current_step: 0,
            failed_hint_index: None,
        }
    }

    /// Stops recording the trace.
    pub fn disable_trace(&mut self)
        ensures
            final(self).trace is None,
            final(self).memory == old(self).memory,
            final(self).run_context == old(self).run_context,
            final(self).builtin_runners == old(self).builtin_runners,
            final(self).current_step == old(self).current_step,
            final(self).failed_hint_index == old(self).failed_hint_index,
    {
        self.trace = None;
    }

    /// The registers.
    pub fn run_context(&self) -> (r: PyRunContext)
        ensures
            r == self.run_context,
    {
        self.run_context
    }

    pub fn get_pc(&self) -> (r: PyRelocatable)
        ensures
            r == self.run_context.pc,
    {
        self.run_context.pc
    }

    pub fn get_ap(&self) -> (r: PyRelocatable)
        ensures
            r == self.run_context.ap,
    {
        self.run_context.ap
    }

    pub fn get_fp(&self) -> (r: PyRelocatable)
        ensures
            r == self.run_context.fp,
    {
        self.run_context.fp
    }

    pub fn add_memory_segment(&mut self) -> (r: PyRelocatable)
        requires
            old(self).memory@.len() < isize::MAX,
        ensures
            final(self).memory@ == old(self).memory@.push(Seq::empty()),
            r == (PyRelocatable { segment_index: old(self).memory@.len() as isize, offset: 0 }),
            final(self).run_context == old(self).run_context,
            final(self).builtin_runners == old(self).builtin_runners,
    {
        self.memory.add_segment()
    }

    pub fn insert_value(&mut self, key: &PyRelocatable, value: PyMaybeRelocatable) -> (r: Result<
        (),
        MemoryError,
    >)
        ensures
            r is Ok <==> insert_ok(old(self).memory@, *key, value),
            r is Ok ==> final(self).memory@ == insert_spec(old(self).memory@, *key, value),
            r is Err ==> final(self).memory@ == old(self).memory@,
            final(self).run_context == old(self).run_context,
            final(self).builtin_runners == old(self).builtin_runners,
    {
        self.memory.insert(key, value)
    }

    pub fn get_maybe(&self, key: &PyRelocatable) -> (r: Option<PyMaybeRelocatable>)
        ensures
            r == cell_of(self.memory@, *key),
    {
        self.memory.get(key)
    }

    /// The `n_ret` values right below the allocation pointer.
    pub fn get_return_values(&self, n_ret: usize) -> (r: Result<Vec<PyMaybeRelocatable>, MemoryError>)
        ensures
            ({
                let ap = self.run_context.ap;
                let start = PyRelocatable { segment_index: ap.segment_index, offset: (ap.offset - n_ret) as usize };
                &&& r is Ok <==> n_ret <= ap.offset && range_written(self.memory@, start, n_ret as int)
                &&& r matches Ok(v) ==> v@ == range_values(self.memory@, start, n_ret as int)
            }),
    {
        let ap = self.run_context.ap;
        if n_ret > ap.offset {
            return Err(MemoryError::OffsetOutOfRange);
        }
        let start = PyRelocatable { segment_index: ap.segment_index, offset: ap.offset - n_ret };
        self.memory.get_range(&start, n_ret)
    }

    /// The pointers every builtin puts on the stack, one list per builtin.
    pub fn get_builtins_initial_stack(&self) -> (r: Vec<Vec<PyMaybeRelocatable>>)
        requires
            builtins_wf(self.builtin_runners@),
        ensures
            r@.len() == self.builtin_runners@.len(),
            forall|i: int| 0 <= i < r@.len() ==> (#[trigger] r@[i])@ == if self.builtin_runners@[i].included {
                seq![initial_pointer(self.builtin_runners@[i])]
            } else {
                Seq::<PyMaybeRelocatable>::empty()
            },
    {
        let mut r: Vec<Vec<PyMaybeRelocatable>> = Vec::new();
        let mut i: usize = 0;
        while i < self.builtin_runners.len()
            invariant
                i <= self.builtin_runners.len(),
                builtins_wf(self.builtin_runners@),
                r@.len() == i,
                forall|j: int| 0 <= j < i ==> (#[trigger] r@[j])@ == if self.builtin_runners@[j].included {
                    seq![initial_pointer(self.builtin_runners@[j])]
                } else {
                    Seq::<PyMaybeRelocatable>::empty()
                },
            decreases self.builtin_runners.len() - i,
        {
            assert(self.builtin_runners@[i as int].base <= isize::MAX);
            let st = self.builtin_runners[i].initial_stack();
            r.push(st);
            i = i + 1;
        }
        r
    }

    /// The pointers the builtins that the program declares put on the stack, in
    /// declaration order.
    pub fn get_program_builtins_initial_stack(&self) -> (r: Vec<PyMaybeRelocatable>)
        requires
            builtins_wf(self.builtin_runners@),
        ensures
            r@ == program_initial_stack(self.builtin_runners@),
    {
        let mut r: Vec<PyMaybeRelocatable> = Vec::new();
        let mut i: usize = 0;
        while i < self.builtin_runners.len()
            invariant
                i <= self.builtin_runners.len(),
                builtins_wf(self.builtin_runners@),
                r@ == program_initial_stack(self.builtin_runners@.take(i as int)),
            decreases self.builtin_runners.len() - i,
        {
            assert(self.builtin_runners@.take(i + 1).drop_last() =~= self.builtin_runners@.take(i as int));
            let b = &self.builtin_runners[i];
            if b.included {
                r.push(
                    PyMaybeRelocatable::RelocatableValue(
                        PyRelocatable { segment_index: b.base as isize, offset: 0 },
                    ),
                );
            }
            i = i + 1;
        }
        assert(self.builtin_runners@.take(i as int) =~= self.builtin_runners@);
        r
    }

    /// Takes each builtin's stop pointer off the stack that ends at `stack_ptr`,
    /// from the last declared builtin to the first, and returns where the stack
    /// then ends. In strict mode a builtin that the program does not declare is
    /// an error; otherwise it takes nothing from the stack.
    pub fn get_builtins_final_stack(&mut self, stack_ptr: PyRelocatable, strict: bool) -> (r: Result<
        PyRelocatable,
        BuiltinError,
    >)
        ensures
            final_stacks_spec(old(self).builtin_runners@, old(self).memory@, stack_ptr, strict)
                matches Ok((p, stops)) ==> r == Ok::<PyRelocatable, BuiltinError>(p)
                && forall|i: int| 0 <= i < stops.len() ==> final(self).builtin_runners@[i].stop_ptr == Some(#[trigger] stops[i]),
            final_stacks_spec(old(self).builtin_runners@, old(self).memory@, stack_ptr, strict)
                matches Err(e) ==> r == Err::<PyRelocatable, BuiltinError>(e),
            final(self).builtin_runners@.len() == old(self).builtin_runners@.len(),
            forall|i: int| 0 <= i < old(self).builtin_runners@.len() ==> {
                &&& (#[trigger] final(self).builtin_runners@[i]).name == old(self).builtin_runners@[i].name
                &&& final(self).builtin_runners@[i].base == old(self).builtin_runners@[i].base
                &&& final(self).builtin_runners@[i].included == old(self).builtin_runners@[i].included
            },
            final(self).memory == old(self).memory,
            final(self).run_context == old(self).run_context,
    {
        let mut ptr = stack_ptr;
        let mut i: usize = self.builtin_runners.len();
        let ghost bs = self.builtin_runners@;
        let ghost m = self.memory@;
        assert(bs.take(bs.len() as int) =~= bs);
        assert(Seq::new(0, |k: int| self.builtin_runners@[bs.len() + k].stop_ptr->Some_0) =~= Seq::<usize>::empty());
        while i > 0
            invariant
                i <= self.builtin_runners@.len(),
                self.builtin_runners@.len() == bs.len(),
                self.memory == old(self).memory,
                m == self.memory@,
                bs == old(self).builtin_runners@,
                self.run_context == old(self).run_context,
                forall|j: int| 0 <= j < i ==> #[trigger] self.builtin_runners@[j] == bs[j],
                forall|j: int| 0 <= j < bs.len() ==> {
                    &&& (#[trigger] self.builtin_runners@[j]).name == bs[j].name
                    &&& self.builtin_runners@[j].base == bs[j].base
                    &&& self.builtin_runners@[j].included == bs[j].included
                },
                forall|j: int| i <= j < bs.len() ==> (#[trigger] self.builtin_runners@[j]).stop_ptr is Some,
                final_stacks_spec(bs, m, stack_ptr, strict) == combine_stops(
                    final_stacks_spec(bs.take(i as int), m, ptr, strict),
                    Seq::new((bs.len() - i) as nat, |k: int| self.builtin_runners@[i + k].stop_ptr->Some_0),
                ),
            decreases i,
        {
            let ghost before = self.builtin_runners@;
            let ghost ptr0 = ptr;
            let ghost pre = bs.take(i as int);
            assert(pre.drop_last() =~= bs.take(i - 1));
            assert(pre.last() == bs[i - 1]);
            let b = &self.builtin_runners[i - 1];
            if strict && !b.included {
                return Err(BuiltinError::UndeclaredBuiltin(b.name));
            }
            let res = self.builtin_runners[i - 1].final_stack(&self.memory, ptr);
            match res {
                Ok(p) => {
                    ptr = p;
                },
                Err(e) => {
                    return Err(e);
                },
            }
            proof {
                let s = self.builtin_runners@[i - 1].stop_ptr->Some_0;
                let rest = Seq::new((bs.len() - (i - 1)) as nat, |k: int| self.builtin_runners@[i - 1 + k].stop_ptr->Some_0);
                let rest0 = Seq::new((bs.len() - i) as nat, |k: int| before[i + k].stop_ptr->Some_0);
                assert forall|k: int| 0 <= k < rest0.len() implies rest[k + 1] == rest0[k] by {
                    assert(self.builtin_runners@[i + k] == before[i + k]);
                }
                assert(rest =~= seq![s] + rest0);
                assert(final_stack_spec(bs[i - 1].name, bs[i - 1].base, bs[i - 1].included, m, ptr0) == Ok::<(PyRelocatable, usize), BuiltinError>((ptr, s)));
                match final_stacks_spec(bs.take(i - 1), m, ptr, strict) {
                    Ok((p2, stops)) => {
                        assert(stops.push(s) + rest0 =~= stops + rest);
                    },
                    Err(e) => {},
                }
            }
            i = i - 1;
        }
        proof {
            assert(bs.take(0) =~= Seq::<BuiltinRunner>::empty());
            let rest = Seq::new(bs.len() as nat, |k: int| self.builtin_runners@[k].stop_ptr->Some_0);
            assert(Seq::<usize>::empty() + rest =~= rest);
        }
        Ok(ptr)
    }

    /// Steps taken, cells never written, and for each builtin the cells of its
    /// segment that were used.
    pub fn get_execution_resources(&self) -> (r: Result<PyExecutionResources, MemoryError>)
        ensures
            r is Ok <==> holes_upto(self.memory@, self.memory@.len() as int) <= usize::MAX,
            r matches Ok(res) ==> {
                &&& res.n_steps == self.current_step
                &&& res.n_memory_holes == holes_upto(self.memory@, self.memory@.len() as int)
                &&& res.builtin_instance_counter@.len() == self.builtin_runners@.len()
                &&& forall|i: int| 0 <= i < self.builtin_runners@.len() ==> {
                    res.builtin_instance_counter@[i] == builtin_usage(#[trigger] self.builtin_runners@[i], self.memory@)
                }
            },
    {
        let mut holes: usize = 0;
        let mut i: usize = 0;
        let n = self.memory.data.len();
        while i < n
            invariant
                n == self.memory@.len(),
                i <= n,
                holes as int == holes_upto(self.memory@, i as int),
            decreases n - i,
        {
            let seg = &self.memory.data[i];
            let mut j: usize = 0;
            let mut h: usize = 0;
            while j < seg.len()
                invariant
                    i < n,
                    seg@ == self.memory@[i as int],
                    j <= seg.len(),
                    h as int == holes_in(seg@.take(j as int)),
                    h <= j,
                decreases seg.len() - j,
            {
                assert(seg@.take(j + 1).drop_last() =~= seg@.take(j as int));
                if seg[j].is_none() {
                    h = h + 1;
                }
                j = j + 1;
            }
            assert(seg@.take(j as int) =~= seg@);
            match holes.checked_add(h) {
                Some(t) => {
                    holes = t;
                },
                None => {
                    proof {
                        lemma_holes_upto_monotonic(self.memory@, i as int + 1, n as int);
                    }
                    return Err(MemoryError::OffsetOutOfRange);
                },
            }
            i = i + 1;
        }
        let mut counters: Vec<(BuiltinName, usize)> = Vec::new();
        let mut k: usize = 0;
        while k < self.builtin_runners.len()
            invariant
                k <= self.builtin_runners.len(),
                counters@.len() == k,
                forall|j: int| 0 <= j < k ==> {
                    counters@[j] == builtin_usage(#[trigger] self.builtin_runners@[j], self.memory@)
                },
            decreases self.builtin_runners.len() - k,
        {
            let b = &self.builtin_runners[k];
            let used = match self.memory.get_segment_used_size(b.base) {
                Some(u) => u,
                None => 0,
            };
            counters.push((b.name, used));
            k = k + 1;
        }
        Ok(PyExecutionResources { n_steps: self.current_step, n_memory_holes: holes, builtin_instance_counter: counters })
    }

    /// Decides, from how the native handlers took the hint at `hint_index`,
    /// whether its script is to be run; a native failure is recorded.
    pub fn should_run_py_hint(&mut self, outcome: NativeHintOutcome, hint_index: usize) -> (r: Result<bool, HintError>)
        ensures
            r == match outcome {
                NativeHintOutcome::Executed => Ok::<bool, HintError>(false),
                NativeHintOutcome::Unknown => Ok::<bool, HintError>(true),
                NativeHintOutcome::Failed => Err::<bool, HintError>(HintError::Native(hint_index)),
            },
            final(self).failed_hint_index == if outcome == NativeHintOutcome::Failed {
                Some(hint_index)
            } else {
                old(self).failed_hint_index
            },
            final(self).memory == old(self).memory,
            final(self).run_context == old(self).run_context,
            final(self).builtin_runners == old(self).builtin_runners,
    {
        match outcome {
            NativeHintOutcome::Executed => Ok(false),
            NativeHintOutcome::Unknown => Ok(true),
            NativeHintOutcome::Failed => {
                self.failed_hint_index = Some(hint_index);
                Err(HintError::Native(hint_index))
            },
        }
    }

    /// Records that the script of the hint at `hint_index` failed.
    pub fn record_script_failure(&mut self, hint_index: usize) -> (r: HintError)
        ensures
            r == HintError::Script(hint_index),
            final(self).failed_hint_index == Some(hint_index),
            final(self).memory == old(self).memory,
            final(self).run_context == old(self).run_context,
            final(self).builtin_runners == old(self).builtin_runners,
    {
        self.failed_hint_index = Some(hint_index);
        HintError::Script(hint_index)
    }

    /// Checks that every written public-key cell of a signature builtin has a
    /// signature.
    pub fn verify_signatures(&self) -> (r: Result<(), BuiltinError>)
        requires
            builtins_wf(self.builtin_runners@),
        ensures
            r is Ok <==> signatures_complete(self.builtin_runners@, self.memory@, self.signatures@),
            r matches Err(e) ==> e matches BuiltinError::MissingSignature(_),
    {
        let ghost m = self.memory@;
        let ghost bs = self.builtin_runners@;
        let mut i: usize = 0;
        while i < self.builtin_runners.len()
            invariant
                i <= bs.len(),
                m == self.memory@,
                bs == self.builtin_runners@,
                builtins_wf(bs),
                forall|a: int, j: int|
                    0 <= a < i && bs[a].name == BuiltinName::Ecdsa && bs[a].base < m.len() && 0 <= j < m[bs[a].base as int].len()
                        && j % 2 == 0 && (#[trigger] m[bs[a].base as int][j]) is Some ==> signature_of(
                        self.signatures@,
                        PyRelocatable { segment_index: bs[a].base as isize, offset: j as usize },
                    ) is Some,
            decreases bs.len() - i,
        {
            let b = &self.builtin_runners[i];
            if b.name == BuiltinName::Ecdsa && b.base < self.memory.num_segments() {
                assert(bs[i as int].base <= isize::MAX);
                let seg = &self.memory.data[b.base];
                let mut j: usize = 0;
                while j < seg.len()
                    invariant
                        i < bs.len(),
                        b == bs[i as int],
                        b.name == BuiltinName::Ecdsa,
                        b.base < m.len(),
                        b.base <= isize::MAX,
                        m == self.memory@,
                        bs == self.builtin_runners@,
                        seg@ == m[b.base as int],
                        j <= seg@.len(),
                        forall|a: int, k: int|
                            0 <= a < i && bs[a].name == BuiltinName::Ecdsa && bs[a].base < m.len() && 0 <= k < m[bs[a].base as int].len()
                                && k % 2 == 0 && (#[trigger] m[bs[a].base as int][k]) is Some ==> signature_of(
                                self.signatures@,
                                PyRelocatable { segment_index: bs[a].base as isize, offset: k as usize },
                            ) is Some,
                        forall|k: int| 0 <= k < j && k % 2 == 0 && (#[trigger] m[b.base as int][k]) is Some ==> signature_of(
                            self.signatures@,
                            PyRelocatable { segment_index: b.base as isize, offset: k as usize },
                        ) is Some,
                    decreases seg.len() - j,
                {
                    if j % 2 == 0 && seg[j].is_some() {
                        let addr = PyRelocatable { segment_index: b.base as isize, offset: j };
                        if get_signature(&self.signatures, &addr).is_none() {
                            assert(!signatures_complete(bs, m, self.signatures@)) by {
                                assert(m[bs[i as int].base as int][j as int] is Some);
                            }
                            return Err(BuiltinError::MissingSignature(addr));
                        }
                    }
                    j = j + 1;
                }
            }
            i = i + 1;
        }
        Ok(())
    }

    /// Records that one instruction was executed and left the registers as
    /// `next`: the registers before it join the trace.
    pub fn record_step(&mut self, next: PyRunContext)
        requires
            old(self).current_step < usize::MAX,
        ensures
            final(self).run_context == next,
            final(self).current_step == old(self).current_step + 1,
            final(self).trace is Some <==> old(self).trace is Some,
            final(self).trace matches Some(t) ==> t@ == old(self).trace->Some_0@.push(
                old(self).run_context,
            ),
            final(self).memory == old(self).memory,
            final(self).builtin_runners == old(self).builtin_runners,
            final(self).failed_hint_index == old(self).failed_hint_index,
    {
        let prev = self.run_context;
        match &mut self.trace {
            Some(t) => {
                t.push(prev);
            },
            None => {},
        }
        self.run_context = next;
        self.current_step = self.current_step + 1;
    }
}

pub proof fn lemma_holes_upto_monotonic(m: MemoryView, i: int, j: int)
    requires
        0 <= i <= j <= m.len(),
    ensures
        holes_upto(m, i) <= holes_upto(m, j),
    decreases j - i,
{
    if i < j {
        lemma_holes_upto_monotonic(m, i, j - 1);
        lemma_holes_in_bounded(m[j - 1]);
    }
}

/// A partial result of the final-stack pass, followed by stop pointers found
/// before it.
pub open spec fn combine_stops(r: Result<(PyRelocatable, Seq<usize>), BuiltinError>, rest: Seq<usize>) -> Result<(PyRelocatable, Seq<usize>), BuiltinError> {
    match r {
        Ok((p, stops)) => Ok((p, stops + rest)),
        Err(e) => Err(e),
    }
}

} // verus!
