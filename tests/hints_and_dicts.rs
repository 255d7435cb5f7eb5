use cairo_rs_py::dict_manager::{DictError, PyDictManager};
use cairo_rs_py::felt::Felt;
use cairo_rs_py::hint_locals::{is_global_name, update_scope_hint_locals};
use cairo_rs_py::memory::PyMemory;
use cairo_rs_py::range_check::PyRangeCheck;
use cairo_rs_py::relocatable::{PyMaybeRelocatable, PyRelocatable};
use cairo_rs_py::scope_manager::{PyScopeManager, ScopeError, ScopeRequests};
use cairo_rs_py::utils::{const_name, const_path_to_const_name};
use cairo_rs_py::builtins::{BuiltinName, BuiltinRunner};

fn f(v: u64) -> Felt {
    Felt::from_u64(v)
}

fn s(x: &str) -> String {
    x.to_string()
}

#[test]
fn default_dict_reads_default_then_written_value() {
    let mut mem = PyMemory::new();
    let mut dm = PyDictManager::new();
    let ptr = dm.new_default_dict(&mut mem, f(42), None);
    assert_eq!(ptr, PyRelocatable::new((0, 0)));
    assert_eq!(dm.read(&ptr, &f(5)), Ok(f(42)));
    dm.write(&ptr, &f(5), &f(7)).unwrap();
    assert_eq!(dm.read(&ptr, &f(5)), Ok(f(7)));
    assert_eq!(dm.read(&ptr, &f(6)), Ok(f(42)));
    dm.write(&ptr, &f(5), &f(8)).unwrap();
    assert_eq!(dm.read(&ptr, &f(5)), Ok(f(8)));
    assert_eq!(dm.get_tracker(&ptr).unwrap().get_data().len(), 1);
}

#[test]
fn plain_dict_has_no_default() {
    let mut mem = PyMemory::new();
    let mut dm = PyDictManager::new();
    mem.add_segment();
    let ptr = dm.new_dict(&mut mem, vec![(f(1), f(10))]);
    assert_eq!(ptr, PyRelocatable::new((1, 0)));
    assert_eq!(dm.read(&ptr, &f(1)), Ok(f(10)));
    assert_eq!(dm.read(&ptr, &f(2)), Err(DictError::NoSuchKey(f(2))));
    let other = PyRelocatable::new((0, 0));
    assert!(dm.get_tracker(&other).is_err());
    assert_eq!(dm.read(&other, &f(1)), Err(DictError::NoDictTracker(0)));
    assert_eq!(dm.write(&other, &f(1), &f(1)), Err(DictError::NoDictTracker(0)));
}

#[test]
fn dict_pointer_only_moves_forward() {
    let mut mem = PyMemory::new();
    let mut dm = PyDictManager::new();
    let ptr = dm.new_dict(&mut mem, vec![]);
    assert_eq!(dm.set_current_ptr(&ptr, PyRelocatable::new((0, 3))), Ok(()));
    assert_eq!(dm.get_tracker(&ptr).unwrap().get_current_ptr(), PyRelocatable::new((0, 3)));
    assert_eq!(
        dm.set_current_ptr(&ptr, PyRelocatable::new((0, 1))),
        Err(DictError::InvalidCurrentPtr(PyRelocatable::new((0, 1))))
    );
    assert_eq!(
        dm.set_current_ptr(&ptr, PyRelocatable::new((1, 5))),
        Err(DictError::InvalidCurrentPtr(PyRelocatable::new((1, 5))))
    );
}

#[test]
fn scope_nesting() {
    let mut sm: PyScopeManager<i64> = PyScopeManager::new();
    assert_eq!(sm.num_frames(), 1);
    sm.enter_scope(None);
    assert_eq!(sm.num_frames(), 2);
    assert_eq!(sm.exit_scope(), Ok(()));
    assert_eq!(sm.num_frames(), 1);
    assert_eq!(sm.exit_scope(), Err(ScopeError::ExitMainScopeError));
    assert_eq!(sm.num_frames(), 1);
}

#[test]
fn scope_lookup_is_innermost_only() {
    let mut sm: PyScopeManager<i64> = PyScopeManager::new();
    sm.assign_or_update(s("n"), 1);
    sm.enter_scope(Some(vec![(s("m"), 2)]));
    assert_eq!(sm.get(&s("n")), None);
    assert_eq!(sm.get(&s("m")), Some(&2));
    sm.assign_or_update(s("m"), 3);
    assert_eq!(sm.get(&s("m")), Some(&3));
    sm.exit_scope().unwrap();
    assert_eq!(sm.get(&s("n")), Some(&1));
}

#[test]
fn hint_bindings_are_merged_back() {
    let mut sm: PyScopeManager<i64> = PyScopeManager::new();
    let mut hint_locals = vec![(s("tracked"), 1)];
    let statics = vec![s("fixed")];
    let bindings = vec![(s("memory"), 9), (s("tracked"), 5), (s("fixed"), 6), (s("fresh"), 7)];
    update_scope_hint_locals(&mut sm, &mut hint_locals, &statics, bindings);
    assert_eq!(hint_locals, vec![(s("tracked"), 5)]);
    assert_eq!(sm.get(&s("fresh")), Some(&7));
    assert_eq!(sm.get(&s("memory")), None);
    assert_eq!(sm.get(&s("fixed")), None);
    assert_eq!(sm.get(&s("tracked")), None);
    assert!(is_global_name(&s("__name__")));
    assert!(!is_global_name(&s("x")));
}

#[test]
fn constant_names_are_stripped() {
    assert_eq!(const_name(&s("__main__.foo.MAX")), "MAX");
    assert_eq!(const_name(&s("plain")), "plain");
    assert_eq!(const_name(&s("ends.")), "");
    let r = const_path_to_const_name(&vec![(s("a.b.C"), f(3))]);
    assert_eq!(r, vec![(s("C"), f(3))]);
}

#[test]
fn range_check_bound_is_exposed() {
    let rc = BuiltinRunner::new(BuiltinName::RangeCheck, 2, true);
    let mut with_bound = BuiltinRunner::new(BuiltinName::RangeCheck, 3, true);
    with_bound.bound = Some(f(9));
    let out = BuiltinRunner::new(BuiltinName::Output, 1, true);
    assert_eq!(PyRangeCheck::from_builtins(&vec![out, with_bound, rc]).bound, Some(f(9)));
    assert_eq!(PyRangeCheck::from_builtins(&vec![]).bound, None);
    assert_eq!(PyRangeCheck::new(None).bound, None);
}

#[test]
fn scope_requests_enter_then_exit() {
    let mut sm: PyScopeManager<i64> = PyScopeManager::new();
    let mut req = ScopeRequests::new();
    req.enter.push(vec![(s("a"), 1)]);
    req.enter.push(vec![(s("b"), 2)]);
    req.exit = 1;
    assert_eq!(req.update_scopes(&mut sm), Ok(()));
    assert_eq!(sm.num_frames(), 2);
    assert_eq!(sm.get(&s("a")), Some(&1));
    let mut leave_all = ScopeRequests::new();
    leave_all.exit = 2;
    assert_eq!(leave_all.update_scopes(&mut sm), Err(ScopeError::ExitMainScopeError));
    assert_eq!(sm.num_frames(), 1);
}

#[test]
fn new_dict() {
    let mut mem = PyMemory::new();
    for _ in 0..2 {
        mem.add_segment();
    }
    let mut dict_manager = PyDictManager::new();
    let ap = PyRelocatable::new((1, 0));
    let first = dict_manager.new_dict(&mut mem, vec![]);
    mem.insert(&ap, PyMaybeRelocatable::RelocatableValue(first)).unwrap();
    let second = dict_manager.new_dict(&mut mem, vec![]);
    mem.insert(&ap.add(1).unwrap(), PyMaybeRelocatable::RelocatableValue(second)).unwrap();
    assert_eq!(mem.get(&PyRelocatable::new((1, 0))), Some(PyMaybeRelocatable::RelocatableValue(PyRelocatable::new((2, 0)))));
    assert_eq!(mem.get(&PyRelocatable::new((1, 1))), Some(PyMaybeRelocatable::RelocatableValue(PyRelocatable::new((3, 0)))));
}

#[test]
fn tracker_read() {
    let mut mem = PyMemory::new();
    for _ in 0..2 {
        mem.add_segment();
    }
    let mut dict_manager = PyDictManager::new();
    let initial_dict = vec![(f(1), f(2)), (f(4), f(8)), (f(16), f(32))];
    let dict = dict_manager.new_dict(&mut mem, initial_dict);
    let dict_tracker = dict_manager.get_tracker(&dict).unwrap();
    assert_eq!(dict_tracker.get_value(&f(1)), Ok(f(2)));
    assert_eq!(dict_tracker.get_value(&f(4)), Ok(f(8)));
    assert_eq!(dict_tracker.get_value(&f(16)), Ok(f(32)));
}

#[test]
fn tracker_read_default_dict() {
    let mut mem = PyMemory::new();
    for _ in 0..2 {
        mem.add_segment();
    }
    let mut dict_manager = PyDictManager::new();
    let dict = dict_manager.new_default_dict(&mut mem, f(42), Some(vec![]));
    let dict_tracker = dict_manager.get_tracker(&dict).unwrap();
    assert_eq!(dict_tracker.get_value(&f(33)), Ok(f(42)));
    assert_eq!(dict_tracker.get_value(&f(223)), Ok(f(42)));
    assert_eq!(dict_tracker.get_value(&f(412)), Ok(f(42)));
}

#[test]
fn tracker_write() {
    let mut mem = PyMemory::new();
    for _ in 0..2 {
        mem.add_segment();
    }
    let mut dict_manager = PyDictManager::new();
    let dict = dict_manager.new_dict(&mut mem, vec![]);
    dict_manager.write(&dict, &f(1), &f(5)).unwrap();
    assert_eq!(dict_manager.read(&dict, &f(1)), Ok(f(5)));
    dict_manager.write(&dict, &f(1), &f(22)).unwrap();
    assert_eq!(dict_manager.read(&dict, &f(1)), Ok(f(22)));
}

#[test]
fn tracker_get_and_set_current_ptr() {
    let mut mem = PyMemory::new();
    for _ in 0..2 {
        mem.add_segment();
    }
    let start_ptr = PyRelocatable::new((2, 0));
    let end_ptr = PyRelocatable::new((2, 1));
    let mut dict_manager = PyDictManager::new();
    let dict = dict_manager.new_dict(&mut mem, vec![]);
    assert_eq!(dict_manager.get_tracker(&dict).unwrap().get_current_ptr(), start_ptr);
    dict_manager.set_current_ptr(&dict, end_ptr).unwrap();
    assert_eq!(dict_manager.get_tracker(&dict).unwrap().get_current_ptr(), end_ptr);
}
