use vstd::prelude::*;
use crate::scope_manager::{frame_assign, frame_get, PyScopeManager};

verus! {

/// The names a hint's bindings hold by construction; a script's use of them
/// never flows back.
pub open spec fn global_names() -> Seq<Seq<char>> {
    seq![
        "memory"@, "segments"@, "ap"@, "fp"@, "ids"@, "vm_enter_scope"@, "vm_exit_scope"@,
        "to_felt_or_relocatable"@, "range_check_builtin"@, "ecdsa_builtin"@, "PRIME"@,
        "__doc__"@, "__annotations__"@, "__package__"@, "__builtins__"@, "__spec__"@,
        "__loader__"@, "__name__"@,
    ]
}

/// Where a name bound by a script goes once the script has run.
#[derive(Clone, Copy, Debug, PartialEq, Eq, Structural)]
pub enum BindingTarget {
    /// An injected name or a static local: dropped.
    Ignored,
    /// A hint local that the host tracks: its value is replaced.
    HintLocal,
    /// Anything else: bound in the innermost scope frame.
    Scope,
}

pub open spec fn names_of(s: Seq<String>) -> Seq<Seq<char>> {
    s.map_values(|n: String| n@)
}

pub open spec fn binding_target<V>(name: Seq<char>, hint_locals: Seq<(String, V)>, static_names: Seq<String>) -> BindingTarget {
    if global_names().contains(name) || names_of(static_names).contains(name) {
        BindingTarget::Ignored
    } else if frame_get(hint_locals, name) is Some {
        BindingTarget::HintLocal
    } else {
        BindingTarget::Scope
    }
}

/// The value a name has after reconciliation, in a map of the given target.
pub open spec fn reconciled<V>(
    before: Seq<(String, V)>,
    target: BindingTarget,
    name: Seq<char>,
    hint_locals: Seq<(String, V)>,
    static_names: Seq<String>,
    bindings: Seq<(String, V)>,
) -> Option<V> {
    if binding_target(name, hint_locals, static_names) == target && frame_get(bindings, name) is Some {
        frame_get(bindings, name)
    } else {
        frame_get(before, name)
    }
}

/// Whether `name` is one of the injected names.
pub fn is_global_name(name: &String) -> (r: bool)
    ensures
        r == global_names().contains(name@),
{
    let mut names: Vec<String> = Vec::new();
    names.push("memory".to_owned());
    names.push("segments".to_owned());
    names.push("ap".to_owned());
    names.push("fp".to_owned());
    names.push("ids".to_owned());
    names.push("vm_enter_scope".to_owned());
    names.push("vm_exit_scope".to_owned());
    names.push("to_felt_or_relocatable".to_owned());
    names.push("range_check_builtin".to_owned());
    names.push("ecdsa_builtin".to_owned());
    names.push("PRIME".to_owned());
    names.push("__doc__".to_owned());
    names.push("__annotations__".to_owned());
    names.push("__package__".to_owned());
    names.push("__builtins__".to_owned());
    names.push("__spec__".to_owned());
    names.push("__loader__".to_owned());
    names.push("__name__".to_owned());
    assert(names_of(names@) =~= global_names());
    contains_name(&names, name)
}

/// Whether one of `names` is `name`.
pub fn contains_name(names: &Vec<String>, name: &String) -> (r: bool)
    ensures
        r == names_of(names@).contains(name@),
{
    let mut i: usize = 0;
    while i < names.len()
        invariant
            i <= names.len(),
            forall|j: int| 0 <= j < i ==> (#[trigger] names@[j])@ != name@,
        decreases names.len() - i,
    {
        if names[i] == *name {
            assert(names_of(names@)[i as int] == name@);
            return true;
        }
        i = i + 1;
    }
    assert(!names_of(names@).contains(name@)) by {
        if names_of(names@).contains(name@) {
            let j = choose|j: int| 0 <= j < names_of(names@).len() && names_of(names@)[j] == name@;
            assert(names@[j]@ == name@);
        }
    }
    false
}

/// Whether a binding of the name exists in the frame.
pub fn frame_contains<V>(f: &Vec<(String, V)>, name: &String) -> (r: bool)
    ensures
        r == (frame_get(f@, name@) is Some),
{
    let mut j: usize = f.len();
    assert(f@.take(j as int) =~= f@);
    while j > 0
        invariant
            j <= f@.len(),
            frame_get(f@, name@) == frame_get(f@.take(j as int), name@),
        decreases j,
    {
        assert(f@.take(j as int).drop_last() =~= f@.take(j - 1));
        if f[j - 1].0 == *name {
            return true;
        }
        j = j - 1;
    }
    false
}

/// Merges the names a script bound back into the host: injected names and static
/// locals are dropped, a hint local that the host tracks takes its new value, and
/// any other name is bound in the innermost scope frame.
pub fn update_scope_hint_locals<V>(
    scopes: &mut PyScopeManager<V>,
    hint_locals: &mut Vec<(String, V)>,
    static_local_names: &Vec<String>,
    bindings: Vec<(String, V)>,
)
    requires
        old(scopes).wf(),
    ensures
        final(scopes).wf(),
        final(scopes).frames@.len() == old(scopes).frames@.len(),
        forall|i: int| 0 <= i < old(scopes).frames@.len() - 1 ==> #[trigger] final(scopes).frames@[i] == old(scopes).frames@[i],
        forall|k: Seq<char>| #[trigger] frame_get(final(hint_locals)@, k) == reconciled(
            old(hint_locals)@, BindingTarget::HintLocal, k, old(hint_locals)@, static_local_names@, bindings@),
        forall|k: Seq<char>| #[trigger] frame_get(final(scopes).current(), k) == reconciled(
            old(scopes).current(), BindingTarget::Scope, k, old(hint_locals)@, static_local_names@, bindings@),
{
    let ghost hl0 = hint_locals@;
    let ghost cur0 = scopes.current();
    let ghost b = bindings@;
    let ghost statics = static_local_names@;
    let mut rest = bindings;
    let ghost mut i: int = 0;
    assert(b.take(0) =~= Seq::<(String, V)>::empty());
    while rest.len() > 0
        invariant
            0 <= i <= b.len(),
            rest@ == b.skip(i),
            scopes.wf(),
            scopes.frames@.len() == old(scopes).frames@.len(),
            forall|j: int| 0 <= j < old(scopes).frames@.len() - 1 ==> #[trigger] scopes.frames@[j] == old(scopes).frames@[j],
            cur0 == old(scopes).current(),
            hl0 == old(hint_locals)@,
            statics == static_local_names@,
            forall|k: Seq<char>| #[trigger] frame_get(hint_locals@, k) == reconciled(hl0, BindingTarget::HintLocal, k, hl0, statics, b.take(i)),
            forall|k: Seq<char>| #[trigger] frame_get(scopes.current(), k) == reconciled(cur0, BindingTarget::Scope, k, hl0, statics, b.take(i)),
        decreases rest.len(),
    {
        let (name, value) = rest.remove(0);
        let ghost taken = b.take(i);
        proof {
            assert(b.take(i + 1) =~= taken.push((name, value)));
            assert(b.take(i + 1).drop_last() =~= taken);
            assert(rest@ =~= b.skip(i + 1));
        }
        let ignored = is_global_name(&name) || contains_name(static_local_names, &name);
        if ignored {
            assert(binding_target(name@, hl0, statics) == BindingTarget::Ignored);
        } else if frame_contains(hint_locals, &name) {
            assert(frame_get(hl0, name@) is Some);
            assert(binding_target(name@, hl0, statics) == BindingTarget::HintLocal);
            let ghost before = hint_locals@;
            frame_assign(hint_locals, name, value);
        } else {
            assert(frame_get(hl0, name@) is None);
            assert(binding_target(name@, hl0, statics) == BindingTarget::Scope);
            scopes.assign_or_update(name, value);
        }
        proof {
            i = i + 1;
        }
    }
    assert(b.take(i) =~= b);
}

} // verus!
