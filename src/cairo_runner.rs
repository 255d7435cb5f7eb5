use vstd::prelude::*;
use crate::builtins::{BuiltinError, BuiltinName, BuiltinRunner};
use crate::felt::Felt;
use crate::memory::{cell_relocates, segment_bases, lemma_segment_base_monotonic, as_cells, cell_of, range_values, range_written, insert_ok, insert_spec, shift, flatten, gen_args_spec, gen_arg_spec, arg_segments, args_segments, lemma_gen_args_grows, lemma_args_segments_monotonic, lemma_load_fresh, load_spec, segment_base, CairoArg, MemoryError, MemoryView};
use crate::relocatable::{PyMaybeRelocatable, PyRelocatable};
use crate::run_context::PyRunContext;
use crate::run_resource::RunResource;
use crate::scope_manager::PyScopeManager;
use crate::ecdsa::{signature_of, PySignature};
use crate::vm_core::{builtin_usage, signatures_complete, builtins_wf, final_stacks_spec, holes_upto, program_initial_stack, PyExecutionResources, PyVM};

verus! {

/// Where a runner is in its lifecycle.
#[derive(Clone, Copy, Debug, PartialEq, Eq, Structural)]
pub enum RunnerState {
    Uninitialized,
    SegmentsInitialized,
    Initialized,
    Ended,
    Relocated,
}

/// Errors of a run.
#[derive(Clone, Copy, Debug, PartialEq, Eq, Structural)]
pub enum RunnerError {
    Memory(MemoryError),
    Builtin(BuiltinError),
    /// The step budget ran out before the target was reached.
    ResourceExhausted,
    /// The call does not fit the runner's state.
    WrongState(RunnerState),
    /// The program has no main entrypoint.
    MissingMain,
    /// A builtin's segment holds cells past its stop pointer.
    OutOfBoundsBuiltinSegmentAccess(BuiltinName),
    /// The program segment holds cells past the program.
    OutOfBoundsProgramSegmentAccess,
    /// A cell holds an address into a segment that does not exist.
    InvalidMemoryValue(PyRelocatable),
}

/// What the run loop does next.
#[derive(Clone, Copy, Debug, PartialEq, Eq, Structural)]
pub enum RunAction {
    /// Run the hints of the current offset, then one instruction.
    Step,
    /// The target was reached.
    Done,
    /// The budget is spent and the target was not reached.
    Exhausted,
}

pub open spec fn run_action_spec(pc: PyRelocatable, target: PyRelocatable, resources: RunResource) -> RunAction {
    if pc == target {
        RunAction::Done
    } else if resources.is_consumed() {
        RunAction::Exhausted
    } else {
        RunAction::Step
    }
}

pub open spec fn reached_spec(pc: PyRelocatable, target: PyRelocatable) -> Result<(), RunnerError> {
    if pc == target {
        Ok(())
    } else {
        Err(RunnerError::ResourceExhausted)
    }
}

/// A spent budget stops the run where it stands: no step is taken, so the
/// program counter keeps its value, and the run fails as out of resources.
pub proof fn lemma_step_budget(pc: PyRelocatable, target: PyRelocatable)
    requires
        pc != target,
    ensures
        run_action_spec(pc, target, RunResource { steps: Some(0) }) == RunAction::Exhausted,
        reached_spec(pc, target) == Err::<(), RunnerError>(RunnerError::ResourceExhausted),
{
}

/// The bound of the range-check builtin, 2^128.
pub open spec fn range_check_bound() -> Felt {
    Felt { w0: 0, w1: 0, w2: 1, w3: 0 }
}

/// The builtin runner of the `i`th declared builtin, as segments are laid out.
pub open spec fn declared_runner(name: BuiltinName, i: int) -> BuiltinRunner {
    BuiltinRunner {
        name,
        base: (i + 2) as usize,
        included: true,
        stop_ptr: None,
        bound: if name == BuiltinName::RangeCheck {
            Some(range_check_bound())
        } else {
            None
        },
    }
}

/// Empty segments.
pub open spec fn empty_segments(n: nat) -> MemoryView {
    Seq::new(n, |i: int| Seq::<Option<PyMaybeRelocatable>>::empty())
}

/// The stack a program's main function starts on: the bases of the `b` declared
/// builtins, then the return frame pointer and the end address, each the base
/// of a segment of its own.
pub open spec fn main_stack(b: int) -> Seq<PyMaybeRelocatable> {
    Seq::new(b as nat, |i: int| PyMaybeRelocatable::RelocatableValue(PyRelocatable { segment_index: (i + 2) as isize, offset: 0 }))
        + seq![
        PyMaybeRelocatable::RelocatableValue(PyRelocatable { segment_index: (b + 2) as isize, offset: 0 }),
        PyMaybeRelocatable::RelocatableValue(PyRelocatable { segment_index: (b + 3) as isize, offset: 0 }),
    ]
}

pub proof fn lemma_declared_initial_stack(bs: Seq<BuiltinRunner>, names: Seq<BuiltinName>)
    requires
        bs.len() == names.len(),
        bs.len() + 8 < isize::MAX,
        forall|i: int| 0 <= i < bs.len() ==> #[trigger] bs[i] == declared_runner(names[i], i),
    ensures
        program_initial_stack(bs) == Seq::new(bs.len(), |i: int| PyMaybeRelocatable::RelocatableValue(PyRelocatable { segment_index: (i + 2) as isize, offset: 0 })),
    decreases bs.len(),
{
    if bs.len() > 0 {
        let b0 = bs.drop_last();
        assert forall|i: int| 0 <= i < b0.len() implies #[trigger] b0[i] == declared_runner(names.drop_last()[i], i) by {
            assert(b0[i] == bs[i]);
        }
        lemma_declared_initial_stack(b0, names.drop_last());
        assert(bs.last() == declared_runner(names[bs.len() - 1], bs.len() - 1));
        assert(program_initial_stack(bs) =~= Seq::new(bs.len(), |i: int| PyMaybeRelocatable::RelocatableValue(PyRelocatable { segment_index: (i + 2) as isize, offset: 0 })));
    } else {
        assert(program_initial_stack(bs) =~= Seq::new(bs.len(), |i: int| PyMaybeRelocatable::RelocatableValue(PyRelocatable { segment_index: (i + 2) as isize, offset: 0 })));
    }
}

/// Memory once a call is laid out: a segment for the end address, the program in
/// segment 0, and in segment 1 the stack followed by the return frame pointer
/// and the end address.
pub open spec fn entry_memory(
    m: MemoryView,
    program: Seq<PyMaybeRelocatable>,
    stack: Seq<PyMaybeRelocatable>,
    return_fp: PyMaybeRelocatable,
) -> Option<MemoryView> {
    let end = PyRelocatable { segment_index: m.len() as isize, offset: 0 };
    let st = stack + seq![return_fp, PyMaybeRelocatable::RelocatableValue(end)];
    match load_spec(m.push(Seq::empty()), PyRelocatable { segment_index: 0, offset: 0 }, program) {
        Some(m2) => load_spec(m2, PyRelocatable { segment_index: 1, offset: 0 }, st),
        None => None,
    }
}

/// No builtin's segment holds cells past its stop pointer.
pub open spec fn builtins_in_bounds(bs: Seq<BuiltinRunner>, m: MemoryView) -> bool {
    forall|i: int| 0 <= i < bs.len() ==> ((#[trigger] bs[i]).stop_ptr is Some && bs[i].base < m.len() ==> m[bs[i].base as int].len() <= bs[i].stop_ptr->Some_0)
}

/// The program segment holds no cell past the program.
pub open spec fn program_in_bounds(m: MemoryView, program_len: int) -> bool {
    m.len() > 0 ==> m[0].len() <= program_len
}

/// An address held in memory points into an existing segment, at most one cell
/// past its end.
pub open spec fn address_in_bounds(m: MemoryView, a: PyRelocatable) -> bool {
    0 <= a.segment_index < m.len() && a.offset <= m[a.segment_index as int].len()
}

pub open spec fn values_in_bounds(m: MemoryView) -> bool {
    forall|i: int, j: int| 0 <= i < m.len() && 0 <= j < m[i].len() ==> (#[trigger] m[i][j] matches Some(
        PyMaybeRelocatable::RelocatableValue(a),
    ) ==> address_in_bounds(m, a))
}

/// The flat address of an address, given the segments' bases.
pub open spec fn relocate_address(bases: Seq<usize>, a: PyRelocatable) -> Option<usize> {
    if 0 <= a.segment_index < bases.len() && bases[a.segment_index as int] + a.offset <= usize::MAX {
        Some((bases[a.segment_index as int] + a.offset) as usize)
    } else {
        None
    }
}

pub open spec fn entry_relocates(bases: Seq<usize>, e: PyRunContext) -> bool {
    relocate_address(bases, e.pc) is Some && relocate_address(bases, e.ap) is Some && relocate_address(bases, e.fp) is Some
}

pub open spec fn relocate_entry(bases: Seq<usize>, e: PyRunContext) -> (usize, usize, usize) {
    (relocate_address(bases, e.pc)->Some_0, relocate_address(bases, e.ap)->Some_0, relocate_address(bases, e.fp)->Some_0)
}

/// The recorded trace; none when tracing is off.
pub open spec fn trace_of(t: Option<Vec<PyRunContext>>) -> Seq<PyRunContext> {
    match t {
        Some(v) => v@,
        None => Seq::empty(),
    }
}

/// Drives one program through its lifecycle. `V` is the type of the host's
/// values that hints bind.
pub struct PyCairoRunner<V> {
    pub pyvm: PyVM,
    pub program_data: Vec<PyMaybeRelocatable>,
    pub program_builtins: Vec<BuiltinName>,
    pub main: Option<usize>,
    pub state: RunnerState,
    pub initial_pc: Option<PyRelocatable>,
    pub initial_ap: Option<PyRelocatable>,
    pub initial_fp: Option<PyRelocatable>,
    pub final_pc: Option<PyRelocatable>,
    pub exec_scopes: PyScopeManager<V>,
    pub hint_locals: Vec<(String, V)>,
    pub static_locals: Option<Vec<(String, V)>>,
    pub relocated_memory: Vec<Option<Felt>>,
    pub relocated_trace: Vec<(usize, usize, usize)>,
}

impl<V> PyCairoRunner<V> {
    /// A runner for a program given by its words, the builtins it declares and the
    /// offset of its main function.
    pub fn new(program_data: Vec<PyMaybeRelocatable>, program_builtins: Vec<BuiltinName>, main: Option<usize>) -> (r: Self)
        ensures
            r.state == RunnerState::Uninitialized,
            r.program_data == program_data,
            r.program_builtins == program_builtins,
            r.main == main,
            r.pyvm.memory@.len() == 0,
            r.pyvm.builtin_runners@.len() == 0,
            r.pyvm.trace is Some,
            r.exec_scopes.wf(),
            r.exec_scopes.frame_count() == 1,
            r.hint_locals@.len() == 0,
            r.static_locals is None,
    {
        PyCairoRunner {
            pyvm: PyVM::new(true),
            program_data,
            program_builtins,
            main,
            state: RunnerState::Uninitialized,
            initial_pc: None,
            initial_ap: None,
            initial_fp: None,
            final_pc: None,
            exec_scopes: PyScopeManager::new(),
            hint_locals: Vec::new(),
            static_locals: None,
            relocated_memory: Vec::new(),
            relocated_trace: Vec::new(),
        }
    }

    /// Adds the program segment (0), the execution segment (1), and one segment
    /// per declared builtin, in declaration order.
    pub fn initialize_segments(&mut self) -> (r: Result<(), RunnerError>)
        requires
            old(self).program_builtins@.len() + 8 < isize::MAX,
        ensures
            old(self).state != RunnerState::Uninitialized || old(self).pyvm.memory@.len() != 0 ==> r
                == Err::<(), RunnerError>(RunnerError::WrongState(old(self).state)) && final(self).pyvm
                == old(self).pyvm && final(self).state == old(self).state,
            old(self).state == RunnerState::Uninitialized && old(self).pyvm.memory@.len() == 0 ==> {
                &&& r is Ok
                &&& final(self).state == RunnerState::SegmentsInitialized
                &&& final(self).pyvm.memory@ == empty_segments((old(self).program_builtins@.len() + 2) as nat)
                &&& final(self).pyvm.builtin_runners@.len() == old(self).pyvm.builtin_runners@.len()
                    + old(self).program_builtins@.len()
                &&& forall|i: int| 0 <= i < old(self).pyvm.builtin_runners@.len() ==> #[trigger] final(self).pyvm.builtin_runners@[i]
                    == old(self).pyvm.builtin_runners@[i]
                &&& forall|i: int| 0 <= i < old(self).program_builtins@.len() ==> final(self).pyvm.builtin_runners@[old(self).pyvm.builtin_runners@.len() + i]
                    == declared_runner(#[trigger] old(self).program_builtins@[i], i)
            },
            final(self).program_data == old(self).program_data,
            final(self).program_builtins == old(self).program_builtins,
            final(self).main == old(self).main,
            final(self).pyvm.run_context == old(self).pyvm.run_context,
    {
        if self.state != RunnerState::Uninitialized || self.pyvm.memory.num_segments() != 0 {
            return Err(RunnerError::WrongState(self.state));
        }
        self.pyvm.add_memory_segment();
        self.pyvm.add_memory_segment();
        let ghost n0 = old(self).pyvm.builtin_runners@.len();
        let mut i: usize = 0;
        while i < self.program_builtins.len()
            invariant
                i <= self.program_builtins@.len(),
                self.program_builtins == old(self).program_builtins,
                self.program_data == old(self).program_data,
                self.main == old(self).main,
                self.state == old(self).state,
                self.program_builtins@.len() + 8 < isize::MAX,
                self.pyvm.memory@ == empty_segments((i + 2) as nat),
                self.pyvm.run_context == old(self).pyvm.run_context,
                self.pyvm.builtin_runners@.len() == n0 + i,
                forall|j: int| 0 <= j < n0 ==> #[trigger] self.pyvm.builtin_runners@[j] == old(self).pyvm.builtin_runners@[j],
                forall|j: int| 0 <= j < i ==> self.pyvm.builtin_runners@[n0 + j]
                    == declared_runner(#[trigger] self.program_builtins@[j], j),
            decreases self.program_builtins.len() - i,
        {
            let base = self.pyvm.add_memory_segment();
            let name = self.program_builtins[i];
            let mut runner = BuiltinRunner::new(name, base.segment_index as usize, true);
            if name == BuiltinName::RangeCheck {
                runner.bound = Some(Felt { w0: 0, w1: 0, w2: 1, w3: 0 });
            }
            self.pyvm.builtin_runners.push(runner);
            i = i + 1;
            assert(self.pyvm.memory@ =~= empty_segments((i + 2) as nat));
        }
        assert(self.pyvm.memory@ =~= empty_segments((old(self).program_builtins@.len() + 2) as nat));
        self.state = RunnerState::SegmentsInitialized;
        Ok(())
    }

    /// Lays out a call of the function at `entrypoint`: adds the segment of the
    /// end address, writes the program to segment 0 and the stack (`stack`, then
    /// `return_fp`, then the end address) to segment 1, and sets the registers to
    /// the start of the call. Returns the end address.
    pub fn initialize_function_entrypoint(
        &mut self,
        entrypoint: usize,
        stack: Vec<PyMaybeRelocatable>,
        return_fp: PyMaybeRelocatable,
    ) -> (r: Result<PyRelocatable, RunnerError>)
        requires
            old(self).pyvm.memory@.len() < isize::MAX,
            stack@.len() + 2 <= usize::MAX,
        ensures
            old(self).state != RunnerState::SegmentsInitialized ==> r == Err::<PyRelocatable, RunnerError>(
                RunnerError::WrongState(old(self).state),
            ) && final(self).pyvm == old(self).pyvm && final(self).state == old(self).state,
            old(self).state == RunnerState::SegmentsInitialized ==> ({
                let end = PyRelocatable { segment_index: old(self).pyvm.memory@.len() as isize, offset: 0 };
                let m1 = old(self).pyvm.memory@.push(Seq::empty());
                let st = stack@ + seq![return_fp, PyMaybeRelocatable::RelocatableValue(end)];
                let m2 = load_spec(m1, PyRelocatable { segment_index: 0, offset: 0 }, old(self).program_data@);
                &&& r is Ok <==> m2 is Some && load_spec(m2->Some_0, PyRelocatable { segment_index: 1, offset: 0 }, st) is Some
                &&& r is Ok ==> {
                    &&& r == Ok::<PyRelocatable, RunnerError>(end)
                    &&& Some(final(self).pyvm.memory@) == load_spec(m2->Some_0, PyRelocatable { segment_index: 1, offset: 0 }, st)
                    &&& final(self).state == RunnerState::Initialized
                    &&& final(self).initial_pc == Some(PyRelocatable { segment_index: 0, offset: entrypoint })
                    &&& final(self).initial_ap == Some(PyRelocatable { segment_index: 1, offset: st.len() as usize })
                    &&& final(self).initial_fp == final(self).initial_ap
                    &&& final(self).final_pc == Some(end)
                    &&& final(self).pyvm.run_context.pc == PyRelocatable { segment_index: 0, offset: entrypoint }
                    &&& final(self).pyvm.run_context.ap == PyRelocatable { segment_index: 1, offset: st.len() as usize }
                    &&& final(self).pyvm.run_context.fp == final(self).pyvm.run_context.ap
                }
            }),
            final(self).pyvm.builtin_runners == old(self).pyvm.builtin_runners,
            final(self).program_data == old(self).program_data,
            final(self).program_builtins == old(self).program_builtins,
            final(self).main == old(self).main,
    {
        if self.state != RunnerState::SegmentsInitialized {
            return Err(RunnerError::WrongState(self.state));
        }
        let end = self.pyvm.add_memory_segment();
        let mut st = stack;
        st.push(return_fp);
        st.push(PyMaybeRelocatable::RelocatableValue(end));
        assert(st@ =~= stack@ + seq![return_fp, PyMaybeRelocatable::RelocatableValue(end)]);
        let program_base = PyRelocatable { segment_index: 0, offset: 0 };
        let execution_base = PyRelocatable { segment_index: 1, offset: 0 };
        let _program_len = self.program_data.len();
        match self.pyvm.memory.load_data(&program_base, &self.program_data) {
            Ok(_) => {},
            Err(e) => {
                return Err(RunnerError::Memory(e));
            },
        }
        match self.pyvm.memory.load_data(&execution_base, &st) {
            Ok(_) => {},
            Err(e) => {
                return Err(RunnerError::Memory(e));
            },
        }
        let pc = PyRelocatable { segment_index: 0, offset: entrypoint };
        let ap = PyRelocatable { segment_index: 1, offset: st.len() };
        self.initial_pc = Some(pc);
        self.initial_ap = Some(ap);
        self.initial_fp = Some(ap);
        self.final_pc = Some(end);
        self.pyvm.run_context.pc = pc;
        self.pyvm.run_context.ap = ap;
        self.pyvm.run_context.fp = ap;
        self.state = RunnerState::Initialized;
        Ok(end)
    }

    /// What the run loop does next, on its way to `address`.
    pub fn run_action(&self, address: &PyRelocatable, resources: &RunResource) -> (r: RunAction)
        ensures
            r == run_action_spec(self.pyvm.run_context.pc, *address, *resources),
    {
        if self.pyvm.run_context.pc == *address {
            RunAction::Done
        } else if resources.consumed() {
            RunAction::Exhausted
        } else {
            RunAction::Step
        }
    }

    /// Whether the run loop ended on `address`; if not, the budget ran out first.
    pub fn check_reached(&self, address: &PyRelocatable) -> (r: Result<(), RunnerError>)
        ensures
            r == reached_spec(self.pyvm.run_context.pc, *address),
    {
        if self.pyvm.run_context.pc == *address {
            Ok(())
        } else {
            Err(RunnerError::ResourceExhausted)
        }
    }

    /// Ends the run.
    pub fn end_run(&mut self) -> (r: Result<(), RunnerError>)
        ensures
            r is Ok <==> old(self).state == RunnerState::Initialized,
            r is Ok ==> final(self).state == RunnerState::Ended,
            r is Err ==> r == Err::<(), RunnerError>(RunnerError::WrongState(old(self).state)) && final(self).state == old(self).state,
            final(self).pyvm == old(self).pyvm,
    {
        if self.state != RunnerState::Initialized {
            return Err(RunnerError::WrongState(self.state));
        }
        self.state = RunnerState::Ended;
        Ok(())
    }

    /// Lays out a fresh runner for a run of the program's main function: the
    /// segments, the builtins' initial stack, a segment for the return frame
    /// pointer and one for the end address. Returns the end address.
    pub fn initialize(&mut self) -> (r: Result<PyRelocatable, RunnerError>)
        requires
            old(self).program_builtins@.len() + 8 < isize::MAX,
        ensures
            !(old(self).state == RunnerState::Uninitialized && old(self).pyvm.memory@.len() == 0
                && old(self).pyvm.builtin_runners@.len() == 0) ==> r == Err::<PyRelocatable, RunnerError>(
                RunnerError::WrongState(old(self).state),
            ) && final(self).pyvm == old(self).pyvm && final(self).state == old(self).state,
            old(self).state == RunnerState::Uninitialized && old(self).pyvm.memory@.len() == 0
                && old(self).pyvm.builtin_runners@.len() == 0 && old(self).main is None ==> r
                == Err::<PyRelocatable, RunnerError>(RunnerError::MissingMain) && final(self).pyvm == old(self).pyvm,
            old(self).state == RunnerState::Uninitialized && old(self).pyvm.memory@.len() == 0
                && old(self).pyvm.builtin_runners@.len() == 0 && old(self).main is Some ==> ({
                let b = old(self).program_builtins@.len() as int;
                let ap = PyRelocatable { segment_index: 1, offset: (b + 2) as usize };
                &&& r == Ok::<PyRelocatable, RunnerError>(PyRelocatable { segment_index: (b + 3) as isize, offset: 0 })
                &&& final(self).pyvm.memory@ == empty_segments((b + 4) as nat).update(0, as_cells(old(self).program_data@)).update(1, as_cells(main_stack(b)))
                &&& final(self).state == RunnerState::Initialized
                &&& final(self).pyvm.run_context.pc == PyRelocatable { segment_index: 0, offset: old(self).main->Some_0 }
                &&& final(self).pyvm.run_context.ap == ap
                &&& final(self).pyvm.run_context.fp == ap
                &&& final(self).final_pc == Some(PyRelocatable { segment_index: (b + 3) as isize, offset: 0 })
                &&& final(self).pyvm.builtin_runners@.len() == b
                &&& forall|i: int| 0 <= i < b ==> final(self).pyvm.builtin_runners@[i]
                    == declared_runner(#[trigger] old(self).program_builtins@[i], i)
            }),
    {
        if self.state != RunnerState::Uninitialized || self.pyvm.memory.num_segments() != 0
            || self.pyvm.builtin_runners.len() != 0 {
            return Err(RunnerError::WrongState(self.state));
        }
        let main = match self.main {
            Some(m) => m,
            None => {
                return Err(RunnerError::MissingMain);
            },
        };
        let _ = self.initialize_segments();
        let ghost b = self.program_builtins@.len() as int;
        proof {
            assert forall|i: int| 0 <= i < self.pyvm.builtin_runners@.len() implies (#[trigger] self.pyvm.builtin_runners@[i]).base <= isize::MAX by {
                assert(self.pyvm.builtin_runners@[i] == declared_runner(self.program_builtins@[i], i));
            }
            lemma_declared_initial_stack(self.pyvm.builtin_runners@, self.program_builtins@);
        }
        let stack = self.pyvm.get_program_builtins_initial_stack();
        let return_fp = self.pyvm.add_memory_segment();
        let ghost m1 = self.pyvm.memory@;
        let ghost st = stack@ + seq![
            PyMaybeRelocatable::RelocatableValue(return_fp),
            PyMaybeRelocatable::RelocatableValue(PyRelocatable { segment_index: (b + 3) as isize, offset: 0 }),
        ];
        let _program_len = self.program_data.len();
        proof {
            assert(st =~= main_stack(b));
            let m2 = m1.push(Seq::empty());
            assert(m2 =~= empty_segments((b + 4) as nat));
            lemma_load_fresh(m2, 0, self.program_data@);
            let m3 = m2.update(0, as_cells(self.program_data@));
            lemma_load_fresh(m3, 1, st);
        }
        self.initialize_function_entrypoint(main, stack, PyMaybeRelocatable::RelocatableValue(return_fp))
    }

    /// Lays out a call of the function at `entrypoint` with the given arguments,
    /// each array written to a new segment first, and a zero return frame pointer.
    /// Returns the end address the run goes to.
    pub fn prepare_entrypoint(&mut self, entrypoint: usize, args: &Vec<CairoArg>) -> (r: Result<PyRelocatable, RunnerError>)
        requires
            old(self).pyvm.memory@.len() + args_segments(args@, args@.len()) + 1 < isize::MAX,
            args@.len() + 2 <= usize::MAX,
        ensures
            old(self).state != RunnerState::SegmentsInitialized ==> r == Err::<PyRelocatable, RunnerError>(
                RunnerError::WrongState(old(self).state),
            ) && final(self).pyvm == old(self).pyvm,
            old(self).state == RunnerState::SegmentsInitialized ==> ({
                let (m1, vals) = gen_args_spec(old(self).pyvm.memory@, args@, args@.len());
                let m2 = entry_memory(m1, old(self).program_data@, vals, PyMaybeRelocatable::Int(Felt { w0: 0, w1: 0, w2: 0, w3: 0 }));
                &&& r is Ok <==> m2 is Some
                &&& r is Ok ==> {
                    &&& r == Ok::<PyRelocatable, RunnerError>(PyRelocatable { segment_index: m1.len() as isize, offset: 0 })
                    &&& m2 == Some(final(self).pyvm.memory@)
                    &&& final(self).state == RunnerState::Initialized
                    &&& final(self).final_pc == Some(PyRelocatable { segment_index: m1.len() as isize, offset: 0 })
                    &&& final(self).pyvm.run_context.pc == PyRelocatable { segment_index: 0, offset: entrypoint }
                    &&& final(self).pyvm.run_context.ap == PyRelocatable { segment_index: 1, offset: (args@.len() + 2) as usize }
                    &&& final(self).pyvm.run_context.fp == final(self).pyvm.run_context.ap
                }
            }),
    {
        if self.state != RunnerState::SegmentsInitialized {
            return Err(RunnerError::WrongState(self.state));
        }
        let mut vals: Vec<PyMaybeRelocatable> = Vec::new();
        let mut i: usize = 0;
        let ghost m0 = self.pyvm.memory@;
        while i < args.len()
            invariant
                i <= args@.len(),
                m0 == old(self).pyvm.memory@,
                m0.len() + args_segments(args@, args@.len()) + 1 < isize::MAX,
                self.pyvm.memory@.len() == m0.len() + args_segments(args@, i as nat),
                (self.pyvm.memory@, vals@) == gen_args_spec(m0, args@, i as nat),
                self.state == old(self).state,
                self.program_data == old(self).program_data,
            decreases args.len() - i,
        {
            proof {
                lemma_args_segments_monotonic(args@, (i + 1) as nat, args@.len());
                lemma_gen_args_grows(m0, args@, (i + 1) as nat);
            }
            let v = self.pyvm.memory.gen_arg(&args[i]);
            vals.push(v);
            i = i + 1;
        }
        proof {
            lemma_gen_args_grows(m0, args@, args@.len());
        }
        self.initialize_function_entrypoint(entrypoint, vals, PyMaybeRelocatable::Int(Felt::zero()))
    }

    /// Checks that the run stayed in bounds: (when asked) no builtin's segment
    /// holds cells past its stop pointer, the program segment holds nothing past
    /// the program, and every address held in memory points into an existing
    /// segment.
    pub fn verify_secure_runner(&self, verify_builtins: bool) -> (r: Result<(), RunnerError>)
        ensures
            ({
                let m = self.pyvm.memory@;
                let b_ok = !verify_builtins || builtins_in_bounds(self.pyvm.builtin_runners@, m);
                let p_ok = program_in_bounds(m, self.program_data@.len() as int);
                &&& r is Ok <==> b_ok && p_ok && values_in_bounds(m)
                &&& !b_ok ==> (r matches Err(RunnerError::OutOfBoundsBuiltinSegmentAccess(_)))
                &&& b_ok && !p_ok ==> r == Err::<(), RunnerError>(RunnerError::OutOfBoundsProgramSegmentAccess)
                &&& b_ok && p_ok && !values_in_bounds(m) ==> (r matches Err(RunnerError::InvalidMemoryValue(_)))
            }),
    {
        let ghost m = self.pyvm.memory@;
        let n = self.pyvm.memory.num_segments();
        if verify_builtins {
            let mut i: usize = 0;
            while i < self.pyvm.builtin_runners.len()
                invariant
                    verify_builtins,
                    i <= self.pyvm.builtin_runners@.len(),
                    n == m.len(),
                    m == self.pyvm.memory@,
                    forall|j: int| 0 <= j < i ==> ((#[trigger] self.pyvm.builtin_runners@[j]).stop_ptr is Some
                        && self.pyvm.builtin_runners@[j].base < m.len() ==> m[self.pyvm.builtin_runners@[j].base as int].len()
                        <= self.pyvm.builtin_runners@[j].stop_ptr->Some_0),
                decreases self.pyvm.builtin_runners.len() - i,
            {
                let b = &self.pyvm.builtin_runners[i];
                match b.stop_ptr {
                    Some(s) => {
                        match self.pyvm.memory.get_segment_used_size(b.base) {
                            Some(used) => {
                                if used > s {
                                    assert(!builtins_in_bounds(self.pyvm.builtin_runners@, m)) by {
                                        assert(self.pyvm.builtin_runners@[i as int].stop_ptr == Some(s));
                                    }
                                    return Err(RunnerError::OutOfBoundsBuiltinSegmentAccess(b.name));
                                }
                            },
                            None => {},
                        }
                    },
                    None => {},
                }
                i = i + 1;
            }
            assert(builtins_in_bounds(self.pyvm.builtin_runners@, m));
        }
        let ghost b_ok = !verify_builtins || builtins_in_bounds(self.pyvm.builtin_runners@, m);
        assert(b_ok);
        if n > 0 {
            match self.pyvm.memory.get_segment_used_size(0) {
                Some(used) => {
                    if used > self.program_data.len() {
                        return Err(RunnerError::OutOfBoundsProgramSegmentAccess);
                    }
                },
                None => {},
            }
        }
        assert(program_in_bounds(m, self.program_data@.len() as int));
        let mut i: usize = 0;
        while i < n
            invariant
                i <= n,
                n == m.len(),
                m == self.pyvm.memory@,
                b_ok == (!verify_builtins || builtins_in_bounds(self.pyvm.builtin_runners@, m)),
                b_ok,
                program_in_bounds(m, self.program_data@.len() as int),
                forall|a: int, b: int| 0 <= a < i && 0 <= b < m[a].len() ==> (#[trigger] m[a][b] matches Some(
                    PyMaybeRelocatable::RelocatableValue(p),
                ) ==> address_in_bounds(m, p)),
            decreases n - i,
        {
            let seg = &self.pyvm.memory.data[i];
            let mut j: usize = 0;
            while j < seg.len()
                invariant
                    i < n,
                    n == m.len(),
                    m == self.pyvm.memory@,
                    b_ok == (!verify_builtins || builtins_in_bounds(self.pyvm.builtin_runners@, m)),
                    b_ok,
                    program_in_bounds(m, self.program_data@.len() as int),
                    seg@ == m[i as int],
                    j <= seg@.len(),
                    forall|a: int, b: int| 0 <= a < i && 0 <= b < m[a].len() ==> (#[trigger] m[a][b] matches Some(
                        PyMaybeRelocatable::RelocatableValue(p),
                    ) ==> address_in_bounds(m, p)),
                    forall|b: int| 0 <= b < j ==> (#[trigger] m[i as int][b] matches Some(
                        PyMaybeRelocatable::RelocatableValue(p),
                    ) ==> address_in_bounds(m, p)),
                decreases seg.len() - j,
            {
                match seg[j] {
                    Some(PyMaybeRelocatable::RelocatableValue(p)) => {
                        let ok = if p.segment_index >= 0 && (p.segment_index as usize) < n {
                            match self.pyvm.memory.get_segment_used_size(p.segment_index as usize) {
                                Some(used) => p.offset <= used,
                                None => false,
                            }
                        } else {
                            false
                        };
                        if !ok {
                            assert(!values_in_bounds(m)) by {
                                assert(m[i as int][j as int] == Some(PyMaybeRelocatable::RelocatableValue(p)));
                            }
                            return Err(RunnerError::InvalidMemoryValue(p));
                        }
                    },
                    _ => {},
                }
                j = j + 1;
            }
            i = i + 1;
        }
        Ok(())
    }

    /// Flattens memory and the trace: computes the segments' bases, then the
    /// flat memory and the flat register triples.
    pub fn relocate(&mut self) -> (r: Result<(), RunnerError>)
        ensures
            ({
                let m = old(self).pyvm.memory@;
                let bases = segment_bases(m);
                let trace = trace_of(old(self).pyvm.trace);
                &&& old(self).state != RunnerState::Ended ==> r == Err::<(), RunnerError>(RunnerError::WrongState(old(self).state))
                &&& r is Ok <==> {
                    &&& old(self).state == RunnerState::Ended
                    &&& segment_base(m, m.len() as int) <= usize::MAX
                    &&& forall|i: int, j: int| 0 <= i < m.len() && 0 <= j < m[i].len() ==> cell_relocates(bases, #[trigger] m[i][j])
                    &&& forall|k: int| 0 <= k < trace.len() ==> entry_relocates(bases, #[trigger] trace[k])
                }
                &&& r is Ok ==> {
                    &&& final(self).state == RunnerState::Relocated
                    &&& final(self).relocated_memory@ == flatten(m, bases, m.len() as int)
                    &&& final(self).relocated_trace@.len() == trace.len()
                    &&& forall|k: int| 0 <= k < trace.len() ==> final(self).relocated_trace@[k] == relocate_entry(bases, #[trigger] trace[k])
                }
            }),
            final(self).pyvm == old(self).pyvm,
    {
        if self.state != RunnerState::Ended {
            return Err(RunnerError::WrongState(self.state));
        }
        let bases = match self.pyvm.memory.relocate_segments() {
            Ok(b) => b,
            Err(e) => {
                return Err(RunnerError::Memory(e));
            },
        };
        proof {
            lemma_segment_base_monotonic_all(self.pyvm.memory@);
            assert(bases@ =~= segment_bases(self.pyvm.memory@));
        }
        let mem = match self.pyvm.memory.relocate_memory(&bases) {
            Ok(v) => v,
            Err(e) => {
                return Err(RunnerError::Memory(e));
            },
        };
        let mut trace: Vec<(usize, usize, usize)> = Vec::new();
        match &self.pyvm.trace {
            Some(t) => {
                assert(t@ == trace_of(old(self).pyvm.trace));
                let mut k: usize = 0;
                while k < t.len()
                    invariant
                        k <= t@.len(),
                        t@ == trace_of(old(self).pyvm.trace),
                        bases@ == segment_bases(old(self).pyvm.memory@),
                        old(self).state == RunnerState::Ended,
                        forall|j: int| 0 <= j < k ==> entry_relocates(bases@, #[trigger] t@[j]),
                        trace@.len() == k,
                        forall|j: int| 0 <= j < k ==> trace@[j] == relocate_entry(bases@, #[trigger] t@[j]),
                    decreases t.len() - k,
                {
                    let e = t[k];
                    let pc = relocate_addr(&bases, &e.pc);
                    let ap = relocate_addr(&bases, &e.ap);
                    let fp = relocate_addr(&bases, &e.fp);
                    match (pc, ap, fp) {
                        (Some(a), Some(b), Some(c)) => {
                            trace.push((a, b, c));
                        },
                        _ => {
                            assert(!entry_relocates(bases@, t@[k as int]));
                            return Err(RunnerError::Memory(MemoryError::OffsetOutOfRange));
                        },
                    }
                    k = k + 1;
                }
            },
            None => {},
        }
        self.relocated_memory = mem;
        self.relocated_trace = trace;
        self.state = RunnerState::Relocated;
        Ok(())
    }

    /// Adds the segments of a run of a single function.
    pub fn initialize_function_runner(&mut self) -> (r: Result<(), RunnerError>)
        requires
            old(self).program_builtins@.len() + 8 < isize::MAX,
        ensures
            r is Ok <==> old(self).state == RunnerState::Uninitialized && old(self).pyvm.memory@.len() == 0,
            r is Ok ==> final(self).state == RunnerState::SegmentsInitialized && final(self).pyvm.memory@
                == empty_segments((old(self).program_builtins@.len() + 2) as nat),
            r is Err ==> final(self).pyvm == old(self).pyvm,
    {
        self.initialize_segments()
    }

    /// Checks that every written cell of the signature builtin is signed, then
    /// takes the builtins' stop pointers off the stack that ends at the
    /// allocation pointer, in strict mode: every builtin must be declared.
    pub fn read_return_values(&mut self) -> (r: Result<PyRelocatable, RunnerError>)
        requires
            builtins_wf(old(self).pyvm.builtin_runners@),
        ensures
            !signatures_complete(old(self).pyvm.builtin_runners@, old(self).pyvm.memory@, old(self).pyvm.signatures@) ==> (r matches Err(
                RunnerError::Builtin(BuiltinError::MissingSignature(_)),
            )),
            signatures_complete(old(self).pyvm.builtin_runners@, old(self).pyvm.memory@, old(self).pyvm.signatures@) ==> {
                &&& final_stacks_spec(old(self).pyvm.builtin_runners@, old(self).pyvm.memory@, old(self).pyvm.run_context.ap, true)
                    matches Ok((p, _)) ==> r == Ok::<PyRelocatable, RunnerError>(p)
                &&& final_stacks_spec(old(self).pyvm.builtin_runners@, old(self).pyvm.memory@, old(self).pyvm.run_context.ap, true)
                    matches Err(e) ==> r == Err::<PyRelocatable, RunnerError>(RunnerError::Builtin(e))
            },
            final(self).pyvm.memory == old(self).pyvm.memory,
    {
        match self.pyvm.verify_signatures() {
            Ok(()) => {},
            Err(e) => {
                return Err(RunnerError::Builtin(e));
            },
        }
        let ap = self.pyvm.run_context.ap;
        match self.pyvm.get_builtins_final_stack(ap, true) {
            Ok(p) => Ok(p),
            Err(e) => Err(RunnerError::Builtin(e)),
        }
    }

    /// The cells of the output builtin's segment, in order, where the runner has
    /// an output builtin whose segment exists.
    pub fn get_output(&self) -> (r: Option<Vec<Option<PyMaybeRelocatable>>>)
        ensures
            r matches Some(cells) ==> exists|i: int| 0 <= i < self.pyvm.builtin_runners@.len()
                && (#[trigger] self.pyvm.builtin_runners@[i]).name == BuiltinName::Output
                && (forall|j: int| 0 <= j < i ==> (#[trigger] self.pyvm.builtin_runners@[j]).name != BuiltinName::Output)
                && self.pyvm.builtin_runners@[i].base < self.pyvm.memory@.len()
                && cells@ == self.pyvm.memory@[self.pyvm.builtin_runners@[i].base as int],
            r is None ==> forall|i: int| 0 <= i < self.pyvm.builtin_runners@.len() && (forall|j: int| 0 <= j < i ==> (#[trigger] self.pyvm.builtin_runners@[j]).name != BuiltinName::Output)
                && (#[trigger] self.pyvm.builtin_runners@[i]).name == BuiltinName::Output ==> self.pyvm.builtin_runners@[i].base >= self.pyvm.memory@.len(),
    {
        let mut i: usize = 0;
        while i < self.pyvm.builtin_runners.len()
            invariant
                i <= self.pyvm.builtin_runners@.len(),
                forall|j: int| 0 <= j < i ==> (#[trigger] self.pyvm.builtin_runners@[j]).name != BuiltinName::Output,
            decreases self.pyvm.builtin_runners.len() - i,
        {
            let b = &self.pyvm.builtin_runners[i];
            if b.name == BuiltinName::Output {
                if b.base < self.pyvm.memory.num_segments() {
                    let seg = &self.pyvm.memory.data[b.base];
                    let mut cells: Vec<Option<PyMaybeRelocatable>> = Vec::new();
                    let mut k: usize = 0;
                    while k < seg.len()
                        invariant
                            k <= seg@.len(),
                            cells@ == seg@.take(k as int),
                        decreases seg.len() - k,
                    {
                        cells.push(seg[k]);
                        k = k + 1;
                        assert(cells@ =~= seg@.take(k as int));
                    }
                    assert(seg@.take(k as int) =~= seg@);
                    return Some(cells);
                }
                return None;
            }
            i = i + 1;
        }
        None
    }

    /// Hands the signatures a hint supplied to the signature builtin.
    pub fn flush_signatures(&mut self, supplied: &PySignature)
        ensures
            forall|a: PyRelocatable| #[trigger] signature_of(final(self).pyvm.signatures@, a) == if signature_of(supplied.signatures@, a) is Some {
                signature_of(supplied.signatures@, a)
            } else {
                signature_of(old(self).pyvm.signatures@, a)
            },
            final(self).pyvm.memory == old(self).pyvm.memory,
            final(self).pyvm.builtin_runners == old(self).pyvm.builtin_runners,
            final(self).pyvm.run_context == old(self).pyvm.run_context,
    {
        supplied.update_signature(&mut self.pyvm.signatures);
    }

    /// Takes the builtins' stop pointers off the stack that ends at `stack_ptr`;
    /// builtins that the program does not declare take nothing.
    pub fn get_builtins_final_stack(&mut self, stack_ptr: PyRelocatable) -> (r: Result<PyRelocatable, RunnerError>)
        ensures
            final_stacks_spec(old(self).pyvm.builtin_runners@, old(self).pyvm.memory@, stack_ptr, false)
                matches Ok((p, _)) ==> r == Ok::<PyRelocatable, RunnerError>(p),
            final_stacks_spec(old(self).pyvm.builtin_runners@, old(self).pyvm.memory@, stack_ptr, false)
                matches Err(e) ==> r == Err::<PyRelocatable, RunnerError>(RunnerError::Builtin(e)),
            final(self).pyvm.memory == old(self).pyvm.memory,
    {
        match self.pyvm.get_builtins_final_stack(stack_ptr, false) {
            Ok(p) => Ok(p),
            Err(e) => Err(RunnerError::Builtin(e)),
        }
    }

    pub fn get_builtins_initial_stack(&self) -> (r: Vec<Vec<PyMaybeRelocatable>>)
        requires
            builtins_wf(self.pyvm.builtin_runners@),
        ensures
            r@.len() == self.pyvm.builtin_runners@.len(),
            forall|i: int| 0 <= i < r@.len() ==> (#[trigger] r@[i])@ == if self.pyvm.builtin_runners@[i].included {
                seq![PyMaybeRelocatable::RelocatableValue(PyRelocatable { segment_index: self.pyvm.builtin_runners@[i].base as isize, offset: 0 })]
            } else {
                Seq::<PyMaybeRelocatable>::empty()
            },
    {
        self.pyvm.get_builtins_initial_stack()
    }

    pub fn get_program_builtins_initial_stack(&self) -> (r: Vec<PyMaybeRelocatable>)
        requires
            builtins_wf(self.pyvm.builtin_runners@),
        ensures
            r@ == program_initial_stack(self.pyvm.builtin_runners@),
    {
        self.pyvm.get_program_builtins_initial_stack()
    }

    pub fn get_execution_resources(&self) -> (r: Result<PyExecutionResources, RunnerError>)
        ensures
            r is Ok <==> holes_upto(self.pyvm.memory@, self.pyvm.memory@.len() as int) <= usize::MAX,
            r matches Ok(res) ==> {
                &&& res.n_steps == self.pyvm.current_step
                &&& res.n_memory_holes == holes_upto(self.pyvm.memory@, self.pyvm.memory@.len() as int)
                &&& res.builtin_instance_counter@.len() == self.pyvm.builtin_runners@.len()
                &&& forall|i: int| 0 <= i < self.pyvm.builtin_runners@.len() ==> res.builtin_instance_counter@[i]
                    == builtin_usage(#[trigger] self.pyvm.builtin_runners@[i], self.pyvm.memory@)
            },
    {
        match self.pyvm.get_execution_resources() {
            Ok(res) => Ok(res),
            Err(e) => Err(RunnerError::Memory(e)),
        }
    }

    /// The number of cells of segment `index`, up to its last written one.
    pub fn get_segment_used_size(&self, index: usize) -> (r: Option<usize>)
        ensures
            r is Some <==> index < self.pyvm.memory@.len(),
            r matches Some(n) ==> n == self.pyvm.memory@[index as int].len(),
    {
        self.pyvm.memory.get_segment_used_size(index)
    }

    pub fn get_ap(&self) -> (r: PyRelocatable)
        ensures
            r == self.pyvm.run_context.ap,
    {
        self.pyvm.get_ap()
    }

    pub fn initial_fp(&self) -> (r: Option<PyRelocatable>)
        ensures
            r == self.initial_fp,
    {
        self.initial_fp
    }

    /// The `n_ret` values right below the allocation pointer.
    pub fn get_return_values(&self, n_ret: usize) -> (r: Result<Vec<PyMaybeRelocatable>, RunnerError>)
        ensures
            ({
                let ap = self.pyvm.run_context.ap;
                let start = PyRelocatable { segment_index: ap.segment_index, offset: (ap.offset - n_ret) as usize };
                &&& r is Ok <==> n_ret <= ap.offset && range_written(self.pyvm.memory@, start, n_ret as int)
                &&& r matches Ok(v) ==> v@ == range_values(self.pyvm.memory@, start, n_ret as int)
            }),
    {
        match self.pyvm.get_return_values(n_ret) {
            Ok(v) => Ok(v),
            Err(e) => Err(RunnerError::Memory(e)),
        }
    }

    pub fn add_segment(&mut self) -> (r: PyRelocatable)
        requires
            old(self).pyvm.memory@.len() < isize::MAX,
        ensures
            final(self).pyvm.memory@ == old(self).pyvm.memory@.push(Seq::empty()),
            r == (PyRelocatable { segment_index: old(self).pyvm.memory@.len() as isize, offset: 0 }),
    {
        self.pyvm.add_memory_segment()
    }

    /// Adds a hash builtin of its own segment, which the program counts as
    /// declared, and returns the segment's base.
    pub fn add_additional_hash_builtin(&mut self) -> (r: PyRelocatable)
        requires
            old(self).pyvm.memory@.len() < isize::MAX,
        ensures
            final(self).pyvm.memory@ == old(self).pyvm.memory@.push(Seq::empty()),
            r == (PyRelocatable { segment_index: old(self).pyvm.memory@.len() as isize, offset: 0 }),
            final(self).pyvm.builtin_runners@ == old(self).pyvm.builtin_runners@.push(
                BuiltinRunner { name: BuiltinName::Pedersen, base: old(self).pyvm.memory@.len() as usize, included: true, stop_ptr: None, bound: None },
            ),
    {
        let base = self.pyvm.add_memory_segment();
        self.pyvm.builtin_runners.push(BuiltinRunner::new(BuiltinName::Pedersen, base.segment_index as usize, true));
        base
    }

    /// Writes `value` at `key`.
    pub fn insert(&mut self, key: &PyRelocatable, value: PyMaybeRelocatable) -> (r: Result<(), RunnerError>)
        ensures
            r is Ok <==> insert_ok(old(self).pyvm.memory@, *key, value),
            r is Ok ==> final(self).pyvm.memory@ == insert_spec(old(self).pyvm.memory@, *key, value),
            r is Err ==> final(self).pyvm.memory@ == old(self).pyvm.memory@,
    {
        match self.pyvm.insert_value(key, value) {
            Ok(()) => Ok(()),
            Err(e) => Err(RunnerError::Memory(e)),
        }
    }

    /// The value at `key`, if that cell was written.
    pub fn get(&self, key: &PyRelocatable) -> (r: Option<PyMaybeRelocatable>)
        ensures
            r == cell_of(self.pyvm.memory@, *key),
    {
        self.pyvm.get_maybe(key)
    }

    /// The values of `size` consecutive cells from `key`.
    pub fn get_range(&self, key: &PyRelocatable, size: usize) -> (r: Result<Vec<PyMaybeRelocatable>, RunnerError>)
        ensures
            r is Ok <==> key.offset + size <= usize::MAX && range_written(self.pyvm.memory@, *key, size as int),
            r matches Ok(v) ==> v@ == range_values(self.pyvm.memory@, *key, size as int),
    {
        match self.pyvm.memory.get_range(key, size) {
            Ok(v) => Ok(v),
            Err(e) => Err(RunnerError::Memory(e)),
        }
    }

    /// The value an argument is passed as; each array goes to a new segment.
    pub fn gen_arg(&mut self, arg: &CairoArg) -> (r: PyMaybeRelocatable)
        requires
            old(self).pyvm.memory@.len() + arg_segments(*arg) < isize::MAX,
        ensures
            (final(self).pyvm.memory@, r) == gen_arg_spec(old(self).pyvm.memory@, *arg),
    {
        self.pyvm.memory.gen_arg(arg)
    }

    /// Writes the arguments' values from `ptr` and returns the address after them.
    pub fn write_arg(&mut self, ptr: &PyRelocatable, args: &Vec<CairoArg>) -> (r: Result<PyRelocatable, RunnerError>)
        requires
            old(self).pyvm.memory@.len() + args_segments(args@, args@.len()) < isize::MAX,
        ensures
            ({
                let (m1, vals) = gen_args_spec(old(self).pyvm.memory@, args@, args@.len());
                &&& r is Ok <==> ptr.offset + args@.len() <= usize::MAX && load_spec(m1, *ptr, vals) is Some
                &&& r matches Ok(end) ==> end == shift(*ptr, args@.len() as int) && Some(final(self).pyvm.memory@)
                    == load_spec(m1, *ptr, vals)
            }),
    {
        match self.pyvm.memory.write_arg(ptr, args) {
            Ok(p) => Ok(p),
            Err(e) => Err(RunnerError::Memory(e)),
        }
    }

}

/// The flat address of `a`, given the segments' bases.
pub fn relocate_addr(bases: &Vec<usize>, a: &PyRelocatable) -> (r: Option<usize>)
    ensures
        r == relocate_address(bases@, *a),
{
    if a.segment_index >= 0 && (a.segment_index as usize) < bases.len() {
        bases[a.segment_index as usize].checked_add(a.offset)
    } else {
        None
    }
}

/// Every segment's base fits once the end of the last segment does.
pub proof fn lemma_segment_base_monotonic_all(m: MemoryView)
    ensures
        forall|i: int| 0 <= i <= m.len() ==> #[trigger] segment_base(m, i) <= segment_base(m, m.len() as int),
{
    assert forall|i: int| 0 <= i <= m.len() implies #[trigger] segment_base(m, i) <= segment_base(m, m.len() as int) by {
        lemma_segment_base_monotonic(m, i, m.len() as int);
    }
}

} // verus!
