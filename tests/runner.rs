use cairo_rs_py::builtins::{BuiltinError, BuiltinName, BuiltinRunner};
use cairo_rs_py::cairo_runner::{PyCairoRunner, RunAction, RunnerError, RunnerState};
use cairo_rs_py::ecdsa::PySignature;
use cairo_rs_py::felt::Felt;
use cairo_rs_py::memory::{CairoArg, PyMemory};
use cairo_rs_py::relocatable::{PyMaybeRelocatable, PyRelocatable};
use cairo_rs_py::run_context::PyRunContext;
use cairo_rs_py::run_resource::RunResource;
use cairo_rs_py::vm_core::{HintError, NativeHintOutcome, PyVM};

fn rel(s: isize, o: usize) -> PyRelocatable {
    PyRelocatable::new((s, o))
}

fn num(v: u64) -> PyMaybeRelocatable {
    PyMaybeRelocatable::Int(Felt::from_u64(v))
}

fn ptr(s: isize, o: usize) -> PyMaybeRelocatable {
    PyMaybeRelocatable::RelocatableValue(rel(s, o))
}

#[test]
fn run_resource_budget() {
    let mut r = RunResource::new(Some(2));
    assert!(!r.consumed());
    r.consume_step();
    r.consume_step();
    assert!(r.consumed());
    let mut unlimited = RunResource::new(None);
    unlimited.consume_step();
    assert!(!unlimited.consumed());
    assert!(RunResource::new(Some(0)).consumed());
}

#[test]
fn initialize_lays_out_main_call() {
    let program = vec![num(10), num(20), num(30)];
    let mut runner: PyCairoRunner<i64> = PyCairoRunner::new(program, vec![BuiltinName::Output], Some(1));
    let end = runner.initialize().unwrap();
    assert_eq!(end, rel(4, 0));
    assert_eq!(runner.state, RunnerState::Initialized);
    assert_eq!(runner.pyvm.get_pc(), rel(0, 1));
    assert_eq!(runner.get_ap(), rel(1, 3));
    assert_eq!(runner.initial_fp(), Some(rel(1, 3)));
    assert_eq!(runner.get_range(&rel(0, 0), 3), Ok(vec![num(10), num(20), num(30)]));
    assert_eq!(runner.get_range(&rel(1, 0), 3), Ok(vec![ptr(2, 0), ptr(3, 0), ptr(4, 0)]));
    assert_eq!(runner.get_segment_used_size(2), Some(0));
    assert_eq!(runner.get_program_builtins_initial_stack(), vec![ptr(2, 0)]);
    assert_eq!(runner.get_builtins_initial_stack(), vec![vec![ptr(2, 0)]]);
    // A second initialization is refused.
    assert_eq!(runner.initialize(), Err(RunnerError::WrongState(RunnerState::Initialized)));
}

#[test]
fn initialize_without_main() {
    let mut runner: PyCairoRunner<i64> = PyCairoRunner::new(vec![num(1)], vec![], None);
    assert_eq!(runner.initialize(), Err(RunnerError::MissingMain));
}

#[test]
fn step_budget_zero_stops_before_any_step() {
    let mut runner: PyCairoRunner<i64> = PyCairoRunner::new(vec![num(1), num(2)], vec![], Some(0));
    runner.initialize_function_runner().unwrap();
    let end = runner.prepare_entrypoint(0, &vec![CairoArg::Value(num(5))]).unwrap();
    let pc = runner.pyvm.get_pc();
    let resources = RunResource::new(Some(0));
    assert_eq!(runner.run_action(&end, &resources), RunAction::Exhausted);
    assert_eq!(runner.check_reached(&end), Err(RunnerError::ResourceExhausted));
    assert_eq!(runner.pyvm.get_pc(), pc);
    assert_eq!(runner.run_action(&end, &RunResource::new(None)), RunAction::Step);
    assert_eq!(runner.run_action(&pc, &resources), RunAction::Done);
}

#[test]
fn prepare_entrypoint_writes_args() {
    let mut runner: PyCairoRunner<i64> = PyCairoRunner::new(vec![num(1)], vec![], Some(0));
    runner.initialize_function_runner().unwrap();
    let args = vec![CairoArg::Value(num(7)), CairoArg::Array(vec![CairoArg::Value(num(1)), CairoArg::Value(num(2))])];
    let end = runner.prepare_entrypoint(0, &args).unwrap();
    assert_eq!(end, rel(3, 0));
    assert_eq!(runner.get_range(&rel(2, 0), 2), Ok(vec![num(1), num(2)]));
    assert_eq!(runner.get_range(&rel(1, 0), 4), Ok(vec![num(7), ptr(2, 0), num(0), ptr(3, 0)]));
    assert_eq!(runner.get_ap(), rel(1, 4));
}

#[test]
fn run_to_end_and_relocate() {
    let mut runner: PyCairoRunner<i64> = PyCairoRunner::new(vec![num(1), num(2)], vec![], Some(0));
    let end = runner.initialize().unwrap();
    assert_eq!(end, rel(3, 0));
    // The executor ran one instruction that jumped to the end address and
    // wrote a return value.
    let ctx = runner.pyvm.run_context;
    runner.insert(&rel(1, 2), num(144)).unwrap();
    runner.pyvm.record_step(PyRunContext::new(end, rel(1, 3), rel(1, 2)));
    assert_eq!(runner.run_action(&end, &RunResource::new(Some(5))), RunAction::Done);
    assert_eq!(runner.check_reached(&end), Ok(()));
    assert_eq!(runner.get_return_values(1), Ok(vec![num(144)]));
    assert_eq!(runner.end_run(), Ok(()));
    assert_eq!(runner.end_run(), Err(RunnerError::WrongState(RunnerState::Ended)));
    assert_eq!(runner.verify_secure_runner(true), Ok(()));
    assert_eq!(runner.relocate(), Ok(()));
    assert_eq!(runner.state, RunnerState::Relocated);
    // Segment 0 starts at 1, segment 1 at 3, segments 2 and 3 at 6.
    assert_eq!(runner.relocated_trace, vec![(1, 5, 5)]);
    assert_eq!(ctx.pc, rel(0, 0));
    assert_eq!(
        runner.relocated_memory,
        vec![
            None,
            Some(Felt::from_u64(1)),
            Some(Felt::from_u64(2)),
            Some(Felt::from_u64(6)),
            Some(Felt::from_u64(6)),
            Some(Felt::from_u64(144)),
        ]
    );
    let res = runner.get_execution_resources().unwrap();
    assert_eq!(res.n_steps, 1);
    assert_eq!(res.n_memory_holes, 0);
}

#[test]
fn verify_secure_runner_finds_out_of_bounds() {
    let mut runner: PyCairoRunner<i64> = PyCairoRunner::new(vec![num(1)], vec![], Some(0));
    runner.initialize().unwrap();
    runner.insert(&rel(0, 5), num(3)).unwrap();
    assert_eq!(runner.verify_secure_runner(false), Err(RunnerError::OutOfBoundsProgramSegmentAccess));
    let mut other: PyCairoRunner<i64> = PyCairoRunner::new(vec![num(1)], vec![], Some(0));
    other.initialize().unwrap();
    other.insert(&rel(1, 9), ptr(7, 0)).unwrap();
    assert_eq!(other.verify_secure_runner(false), Err(RunnerError::InvalidMemoryValue(rel(7, 0))));
}

#[test]
fn builtin_final_stack_one_usage() {
    let mut runner: PyCairoRunner<i64> = PyCairoRunner::new(vec![num(1)], vec![BuiltinName::Output], Some(0));
    runner.initialize().unwrap();
    // The builtin was used once, and the program left its stop pointer on the stack.
    runner.insert(&rel(2, 0), num(42)).unwrap();
    runner.insert(&rel(1, 3), ptr(2, 1)).unwrap();
    let r = runner.get_builtins_final_stack(rel(1, 4));
    assert_eq!(r, Ok(rel(1, 3)));
    assert_eq!(runner.pyvm.builtin_runners[0].stop_ptr, Some(1));
    let res = runner.get_execution_resources().unwrap();
    let counters = res.builtin_instance_counter();
    assert_eq!(counters, vec![("output_builtin".to_string(), 1)]);
}

#[test]
fn builtin_final_stack_errors() {
    let mut m = PyMemory::new();
    m.add_segment();
    m.add_segment();
    m.insert(&rel(1, 0), num(1)).unwrap();
    m.insert(&rel(0, 0), num(5)).unwrap();
    m.insert(&rel(0, 1), ptr(0, 0)).unwrap();
    m.insert(&rel(0, 2), ptr(1, 0)).unwrap();
    let mut b = BuiltinRunner::new(BuiltinName::RangeCheck, 1, true);
    assert_eq!(b.final_stack(&m, rel(0, 0)), Err(BuiltinError::NoStopPointer(BuiltinName::RangeCheck)));
    assert_eq!(b.final_stack(&m, rel(0, 1)), Err(BuiltinError::NoStopPointer(BuiltinName::RangeCheck)));
    assert_eq!(b.final_stack(&m, rel(0, 2)), Err(BuiltinError::InvalidStopPointerIndex(BuiltinName::RangeCheck)));
    assert_eq!(b.final_stack(&m, rel(0, 3)), Err(BuiltinError::InvalidStopPointer(BuiltinName::RangeCheck)));
    assert_eq!(b.stop_ptr, None);
    let mut undeclared = BuiltinRunner::new(BuiltinName::Bitwise, 1, false);
    assert_eq!(undeclared.final_stack(&m, rel(0, 3)), Ok(rel(0, 3)));
    assert_eq!(undeclared.stop_ptr, Some(0));
}

#[test]
fn strict_final_stack_rejects_undeclared() {
    let mut vm = PyVM::new(false);
    vm.add_memory_segment();
    vm.builtin_runners.push(BuiltinRunner::new(BuiltinName::Keccak, 0, false));
    assert_eq!(vm.get_builtins_final_stack(rel(0, 0), true), Err(BuiltinError::UndeclaredBuiltin(BuiltinName::Keccak)));
    assert_eq!(vm.get_builtins_final_stack(rel(0, 0), false), Ok(rel(0, 0)));
}

#[test]
fn signatures_are_checked_and_flushed() {
    let mut runner: PyCairoRunner<i64> = PyCairoRunner::new(vec![num(1)], vec![BuiltinName::Ecdsa], Some(0));
    runner.initialize().unwrap();
    runner.insert(&rel(2, 0), num(11)).unwrap();
    runner.insert(&rel(2, 1), num(12)).unwrap();
    runner.insert(&rel(1, 3), ptr(2, 2)).unwrap();
    runner.pyvm.run_context.ap = rel(1, 4);
    assert_eq!(
        runner.read_return_values(),
        Err(RunnerError::Builtin(BuiltinError::MissingSignature(rel(2, 0))))
    );
    let mut sig = PySignature::new();
    sig.add_signature(rel(2, 0), (Felt::from_u64(1), Felt::from_u64(2)));
    sig.add_signature(rel(2, 0), (Felt::from_u64(3), Felt::from_u64(4)));
    assert_eq!(sig.signatures.len(), 1);
    runner.flush_signatures(&sig);
    assert_eq!(runner.read_return_values(), Ok(rel(1, 3)));
}

#[test]
fn hint_outcomes() {
    let mut vm = PyVM::new(true);
    assert_eq!(vm.should_run_py_hint(NativeHintOutcome::Executed, 0), Ok(false));
    assert_eq!(vm.should_run_py_hint(NativeHintOutcome::Unknown, 1), Ok(true));
    assert_eq!(vm.failed_hint_index, None);
    assert_eq!(vm.should_run_py_hint(NativeHintOutcome::Failed, 2), Err(HintError::Native(2)));
    assert_eq!(vm.failed_hint_index, Some(2));
    assert_eq!(vm.record_script_failure(3), HintError::Script(3));
    assert_eq!(vm.failed_hint_index, Some(3));
}

#[test]
fn memory_holes_are_counted() {
    let mut vm = PyVM::new(true);
    vm.add_memory_segment();
    vm.insert_value(&rel(0, 3), num(1)).unwrap();
    let res = vm.get_execution_resources().unwrap();
    assert_eq!(res.n_memory_holes, 3);
    assert_eq!(res.n_steps, 0);
}
