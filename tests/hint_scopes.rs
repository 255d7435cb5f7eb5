use cairo_rs_py::hint_locals::update_scope_hint_locals;
use cairo_rs_py::scope_manager::{PyScopeManager, ScopeError, ScopeRequests};

fn s(x: &str) -> String {
    x.to_string()
}

/// Merges what a script bound, with no hint locals and no static locals.
fn merge(scopes: &mut PyScopeManager<i64>, bindings: Vec<(String, i64)>) {
    let mut hint_locals: Vec<(String, i64)> = vec![];
    update_scope_hint_locals(scopes, &mut hint_locals, &vec![], bindings);
}

fn requests(enter: Vec<Vec<(String, i64)>>, exit: usize) -> ScopeRequests<i64> {
    let mut r = ScopeRequests::new();
    r.enter = enter;
    r.exit = exit;
    r
}

#[test]
fn scopes_hint() {
    let mut exec_scopes: PyScopeManager<i64> = PyScopeManager::new();
    // num = 6
    merge(&mut exec_scopes, vec![(s("num"), 6)]);
    // assert(num == 6)
    assert_eq!(exec_scopes.get(&s("num")), Some(&6));
}

#[test]
fn scopes_hint_modify() {
    let mut exec_scopes: PyScopeManager<i64> = PyScopeManager::new();
    merge(&mut exec_scopes, vec![(s("num"), 6)]);
    assert_eq!(exec_scopes.get(&s("num")), Some(&6));
    // num = num + 3
    let num = *exec_scopes.get(&s("num")).unwrap();
    merge(&mut exec_scopes, vec![(s("num"), num + 3)]);
    assert_eq!(exec_scopes.get(&s("num")), Some(&9));
}

#[test]
fn modify_hint_locals() {
    let mut exec_scopes: PyScopeManager<String> = PyScopeManager::new();
    let mut hint_locals = vec![(s("word"), s("fruity"))];
    // word = word[::-1]
    let reversed: String = hint_locals[0].1.chars().rev().collect();
    update_scope_hint_locals(&mut exec_scopes, &mut hint_locals, &vec![], vec![(s("word"), reversed)]);
    assert_eq!(hint_locals[0].1, s("ytiurf"));
    assert_eq!(exec_scopes.get(&s("word")), None);
}

#[test]
fn exit_main_scope_hint() {
    let mut exec_scopes: PyScopeManager<i64> = PyScopeManager::new();
    let x = requests(vec![], 1).update_scopes(&mut exec_scopes);
    assert!(x.is_err());
    assert_eq!(x, Err(ScopeError::ExitMainScopeError));
}

#[test]
fn enter_scope_empty_hint() {
    let mut exec_scopes: PyScopeManager<i64> = PyScopeManager::new();
    assert!(requests(vec![vec![]], 0).update_scopes(&mut exec_scopes).is_ok());
    assert_eq!(exec_scopes.num_frames(), 2)
}

#[test]
fn enter_exit_scope_same_hint() {
    let mut exec_scopes: PyScopeManager<i64> = PyScopeManager::new();
    assert!(requests(vec![vec![]], 1).update_scopes(&mut exec_scopes).is_ok());
    assert_eq!(exec_scopes.num_frames(), 1);
}

#[test]
fn enter_exit_scope_separate_hints() {
    let mut exec_scopes: PyScopeManager<i64> = PyScopeManager::new();
    assert!(requests(vec![vec![]], 0).update_scopes(&mut exec_scopes).is_ok());
    assert_eq!(exec_scopes.num_frames(), 2);
    assert!(requests(vec![], 1).update_scopes(&mut exec_scopes).is_ok());
    assert_eq!(exec_scopes.num_frames(), 1)
}

#[test]
fn enter_exit_enter_scope_same_hint() {
    let mut exec_scopes: PyScopeManager<i64> = PyScopeManager::new();
    assert!(requests(vec![vec![], vec![]], 1).update_scopes(&mut exec_scopes).is_ok());
    assert_eq!(exec_scopes.num_frames(), 2)
}

#[test]
fn enter_scope_non_empty_hint() {
    let mut exec_scopes: PyScopeManager<i64> = PyScopeManager::new();
    // vm_enter_scope({'n': 12})
    assert!(requests(vec![vec![(s("n"), 12)]], 0).update_scopes(&mut exec_scopes).is_ok());
    // assert(n == 12)
    assert_eq!(exec_scopes.get(&s("n")), Some(&12));
}

#[test]
fn run_hint_with_static_locals() {
    let mut exec_scopes: PyScopeManager<i64> = PyScopeManager::new();
    let mut hint_locals: Vec<(String, i64)> = vec![];
    let static_locals = vec![(s("__number_max"), 90)];
    let static_names = vec![s("__number_max")];
    // number = __number_max
    let bindings = vec![(s("__number_max"), static_locals[0].1), (s("number"), static_locals[0].1)];
    update_scope_hint_locals(&mut exec_scopes, &mut hint_locals, &static_names, bindings);
    assert_eq!(exec_scopes.get(&s("number")), Some(&90));
}

#[test]
fn run_hint_with_static_locals_shouldnt_change_its_value() {
    let mut exec_scopes: PyScopeManager<i64> = PyScopeManager::new();
    let mut hint_locals: Vec<(String, i64)> = vec![];
    let static_locals = vec![(s("__number_max"), 90)];
    let static_names = vec![s("__number_max")];
    // __number_max = 15
    update_scope_hint_locals(&mut exec_scopes, &mut hint_locals, &static_names, vec![(s("__number_max"), 15)]);
    assert_eq!(static_locals[0].1, 90);
    assert_eq!(exec_scopes.get(&s("__number_max")), None);
}

#[test]
fn run_hint_with_static_locals_shouldnt_affect_scope_or_hint_locals() {
    let mut exec_scopes: PyScopeManager<i64> = PyScopeManager::new();
    let mut hint_locals: Vec<(String, i64)> = vec![];
    let static_names = vec![s("__number_max")];
    // assert(__number_max == 90)
    update_scope_hint_locals(&mut exec_scopes, &mut hint_locals, &static_names, vec![(s("__number_max"), 90)]);
    assert!(hint_locals.is_empty());
    assert_eq!(exec_scopes.get(&s("__number_max")), None);
}
