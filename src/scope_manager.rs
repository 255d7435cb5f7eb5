use vstd::prelude::*;

verus! {

/// The value bound to `name` in a frame: its last binding there.
pub open spec fn frame_get<V>(f: Seq<(String, V)>, name: Seq<char>) -> Option<V>
    decreases f.len(),
{
    if f.len() == 0 {
        None
    } else if f.last().0@ == name {
        Some(f.last().1)
    } else {
        frame_get(f.drop_last(), name)
    }
}

/// The value bound to `name` in a list of named entries: its last binding.
pub fn frame_lookup<'a, V>(f: &'a Vec<(String, V)>, name: &String) -> (r: Option<&'a V>)
    ensures
        r matches Some(v) ==> frame_get(f@, name@) == Some(*v),
        r is None ==> frame_get(f@, name@) is None,
{
    let mut j: usize = f.len();
    assert(f@.take(j as int) =~= f@);
    while j > 0
        invariant
            j <= f@.len(),
            frame_get(f@, name@) == frame_get(f@.take(j as int), name@),
        decreases j,
    {
        assert(f@.take(j as int).drop_last() =~= f@.take(j - 1));
        if f[j - 1].0 == *name {
            return Some(&f[j - 1].1);
        }
        j = j - 1;
    }
    None
}

/// A frame after `name` is bound to `value`.
pub open spec fn frame_bound<V>(f: Seq<(String, V)>, name: Seq<char>, value: V, g: Seq<(String, V)>) -> bool {
    &&& frame_get(g, name) == Some(value)
    &&& forall|k: Seq<char>| k != name ==> #[trigger] frame_get(g, k) == frame_get(f, k)
}

/// Errors of the scope stack.
#[derive(Clone, Copy, Debug, PartialEq, Eq, Structural)]
pub enum ScopeError {
    /// The main frame cannot be left.
    ExitMainScopeError,
}

/// A stack of frames of named host values. There is always a main frame at the
/// bottom.
pub struct PyScopeManager<V> {
    pub frames: Vec<Vec<(String, V)>>,
}

/// Binds `name` to `value` in a frame: the last binding of the name is
/// replaced, or a new one is added.
pub fn frame_assign<V>(f: &mut Vec<(String, V)>, name: String, value: V)
    ensures
        frame_bound(old(f)@, name@, value, final(f)@),
{
    let mut j: usize = f.len();
    while j > 0
        invariant
            j <= f@.len(),
            forall|i: int| j <= i < f@.len() ==> (#[trigger] f@[i]).0@ != name@,
            f@ == old(f)@,
        decreases j,
    {
        if f[j - 1].0 == name {
            proof {
                lemma_frame_get_suffix_free(f@, name@, j as int);
            }
            let ghost g0 = f@;
            f[j - 1] = (name, value);
            proof {
                lemma_frame_set(g0, j - 1, f@, name@, value);
            }
            return;
        }
        j = j - 1;
    }
    let ghost g0 = f@;
    f.push((name, value));
    proof {
        assert(f@.drop_last() =~= g0);
    }
}

/// Where no binding after `j` has the name, the frame's value is that of its
/// first `j` bindings.
pub proof fn lemma_frame_get_suffix_free<V>(f: Seq<(String, V)>, name: Seq<char>, j: int)
    requires
        0 <= j <= f.len(),
        forall|i: int| j <= i < f.len() ==> (#[trigger] f[i]).0@ != name,
    ensures
        frame_get(f, name) == frame_get(f.take(j), name),
    decreases f.len() - j,
{
    if j < f.len() {
        assert(f.drop_last().take(j) =~= f.take(j));
        lemma_frame_get_suffix_free(f.drop_last(), name, j);
    } else {
        assert(f.take(j) =~= f);
    }
}

/// Replacing the last binding of a name changes that name's value only.
pub proof fn lemma_frame_set<V>(f: Seq<(String, V)>, j: int, g: Seq<(String, V)>, name: Seq<char>, value: V)
    requires
        0 <= j < f.len(),
        f[j].0@ == name,
        g == f.update(j, (g[j].0, value)),
        g[j].0@ == name,
        forall|i: int| j < i < f.len() ==> (#[trigger] f[i]).0@ != name,
    ensures
        frame_bound(f, name, value, g),
    decreases f.len() - j,
{
    if j == f.len() - 1 {
        assert(g.drop_last() =~= f.drop_last());
        assert forall|k: Seq<char>| k != name implies #[trigger] frame_get(g, k) == frame_get(f, k) by {
        }
    } else {
        let g1 = g.drop_last();
        let f1 = f.drop_last();
        assert(g1 =~= f1.update(j, (g[j].0, value)));
        lemma_frame_set(f1, j, g1, name, value);
        assert(g.last() == f.last());
        assert forall|k: Seq<char>| k != name implies #[trigger] frame_get(g, k) == frame_get(f, k) by {
            assert(frame_get(g1, k) == frame_get(f1, k));
        }
    }
}

impl<V> PyScopeManager<V> {
    pub open spec fn wf(&self) -> bool {
        self.frames@.len() >= 1
    }

    pub open spec fn frame_count(&self) -> nat {
        self.frames@.len()
    }

    /// The innermost frame.
    pub open spec fn current(&self) -> Seq<(String, V)> {
        self.frames@.last()@
    }

    /// A stack holding only an empty main frame.
    pub fn new() -> (r: Self)
        ensures
            r.wf(),
            r.frame_count() == 1,
            r.current().len() == 0,
    {
        let mut frames: Vec<Vec<(String, V)>> = Vec::new();
        frames.push(Vec::new());
        PyScopeManager { frames }
    }

    pub fn num_frames(&self) -> (r: usize)
        ensures
            r == self.frame_count(),
    {
        self.frames.len()
    }

    /// Pushes a frame holding `variables`, or an empty one.
    pub fn enter_scope(&mut self, variables: Option<Vec<(String, V)>>)
        ensures
            final(self).frames@.len() == old(self).frames@.len() + 1,
            forall|i: int| 0 <= i < old(self).frames@.len() ==> #[trigger] final(self).frames@[i] == old(self).frames@[i],
            final(self).current() == match variables {
                Some(v) => v@,
                None => Seq::<(String, V)>::empty(),
            },
    {
        match variables {
            Some(v) => self.frames.push(v),
            None => self.frames.push(Vec::new()),
        }
    }

    /// Pops the innermost frame; the main frame stays.
    pub fn exit_scope(&mut self) -> (r: Result<(), ScopeError>)
        requires
            old(self).wf(),
        ensures
            final(self).wf(),
            r is Ok <==> exit_allowed(old(self).frames@),
            r is Ok ==> final(self).frames@ == old(self).frames@.drop_last(),
            r is Err ==> final(self).frames@ == old(self).frames@ && r == Err::<(), ScopeError>(ScopeError::ExitMainScopeError),
    {
        if self.frames.len() <= 1 {
            return Err(ScopeError::ExitMainScopeError);
        }
        let _ = self.frames.pop();
        Ok(())
    }

    /// The value of `name` in the innermost frame; outer frames are not searched.
    pub fn get(&self, name: &String) -> (r: Option<&V>)
        requires
            self.wf(),
        ensures
            r matches Some(v) ==> frame_get(self.current(), name@) == Some(*v),
            r is None ==> frame_get(self.current(), name@) is None,
    {
        let f = &self.frames[self.frames.len() - 1];
        let mut j: usize = f.len();
        assert(f@.take(j as int) =~= f@);
        while j > 0
            invariant
                j <= f@.len(),
                f@ == self.current(),
                frame_get(f@, name@) == frame_get(f@.take(j as int), name@),
            decreases j,
        {
            assert(f@.take(j as int).drop_last() =~= f@.take(j - 1));
            if f[j - 1].0 == *name {
                return Some(&f[j - 1].1);
            }
            j = j - 1;
        }
        None
    }

    /// Binds `name` to `value` in the innermost frame.
    pub fn assign_or_update(&mut self, name: String, value: V)
        requires
            old(self).wf(),
        ensures
            final(self).wf(),
            final(self).frames@.len() == old(self).frames@.len(),
            forall|i: int| 0 <= i < old(self).frames@.len() - 1 ==> #[trigger] final(self).frames@[i] == old(self).frames@[i],
            frame_bound(old(self).current(), name@, value, final(self).current()),
    {
        let n = self.frames.len();
        frame_assign(&mut self.frames[n - 1], name, value);
    }
}

/// The scope changes a hint asked for: frames to enter, in order, then a number
/// of frames to leave.
pub struct ScopeRequests<V> {
    pub enter: Vec<Vec<(String, V)>>,
    pub exit: usize,
}

impl<V> ScopeRequests<V> {
    pub fn new() -> (r: Self)
        ensures
            r.enter@.len() == 0,
            r.exit == 0,
    {
        ScopeRequests { enter: Vec::new(), exit: 0 }
    }

    /// Applies the requests to `scopes`: the frames are entered, then the
    /// frames are left; leaving the main frame stops it with an error.
    pub fn update_scopes(self, scopes: &mut PyScopeManager<V>) -> (r: Result<(), ScopeError>)
        requires
            old(scopes).wf(),
        ensures
            final(scopes).wf(),
            r is Ok <==> self.exit < old(scopes).frames@.len() + self.enter@.len(),
            r is Ok ==> final(scopes).frames@ == (old(scopes).frames@ + self.enter@).take(
                old(scopes).frames@.len() + self.enter@.len() - self.exit,
            ),
            r is Err ==> final(scopes).frames@.len() == 1 && r == Err::<(), ScopeError>(ScopeError::ExitMainScopeError),
    {
        let ghost all = old(scopes).frames@ + self.enter@;
        let ghost e0 = self.enter@;
        let mut enter = self.enter;
        let exit = self.exit;
        let mut i: usize = 0;
        let n = enter.len();
        assert(enter@.skip(0) =~= e0);
        while i < n
            invariant
                n == e0.len(),
                i <= n,
                enter@ == e0.skip(i as int),
                scopes.frames@ == old(scopes).frames@ + e0.take(i as int),
                scopes.wf(),
            decreases n - i,
        {
            let frame = enter.remove(0);
            scopes.frames.push(frame);
            i = i + 1;
            assert(enter@ =~= e0.skip(i as int));
            assert(scopes.frames@ =~= old(scopes).frames@ + e0.take(i as int));
        }
        assert(e0.take(n as int) =~= e0);
        assert(scopes.frames@ == all);
        let mut k: usize = 0;
        while k < exit
            invariant
                k <= exit,
                exit == self.exit,
                e0 == self.enter@,
                all == old(scopes).frames@ + e0,
                scopes.wf(),
                all.len() - k >= 1,
                scopes.frames@ == all.take(all.len() - k),
            decreases exit - k,
        {
            if scopes.frames.len() <= 1 {
                return Err(ScopeError::ExitMainScopeError);
            }
            let _ = scopes.frames.pop();
            k = k + 1;
            assert(scopes.frames@ =~= all.take(all.len() - k));
        }
        assert(all.take(all.len() as int) =~= all);
        Ok(())
    }
}

/// Whether the innermost frame may be left: it is not the main frame.
pub open spec fn exit_allowed<V>(frames: Seq<Vec<(String, V)>>) -> bool {
    frames.len() > 1
}

/// Entering a scope and leaving it again restores the stack as it was, so the
/// number of frames is unchanged; leaving the main frame when it stands alone
/// is refused.
pub proof fn lemma_scope_nesting<V>(frames: Seq<Vec<(String, V)>>, entered: Vec<(String, V)>, main: Vec<(String, V)>)
    requires
        frames.len() >= 1,
    ensures
        exit_allowed(frames.push(entered)),
        frames.push(entered).drop_last() == frames,
        frames.push(entered).drop_last().len() == frames.len(),
        !exit_allowed(seq![main]),
{
    assert(frames.push(entered).drop_last() =~= frames);
}

} // verus!
