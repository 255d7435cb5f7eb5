use vstd::prelude::*;
use crate::felt::Felt;
use crate::memory::PyMemory;
use crate::relocatable::PyRelocatable;

verus! {

/// The value of `key` in a dictionary's entries: its last entry.
pub open spec fn dict_get(s: Seq<(Felt, Felt)>, key: Felt) -> Option<Felt>
    decreases s.len(),
{
    if s.len() == 0 {
        None
    } else if s.last().0 == key {
        Some(s.last().1)
    } else {
        dict_get(s.drop_last(), key)
    }
}

/// Errors of the dictionary manager.
#[derive(Clone, Copy, Debug, PartialEq, Eq, Structural)]
pub enum DictError {
    /// No dictionary lives in the pointer's segment.
    NoDictTracker(isize),
    /// The key is absent and the dictionary has no default.
    NoSuchKey(Felt),
    /// The new pointer leaves the dictionary's segment or goes back in it.
    InvalidCurrentPtr(PyRelocatable),
}

/// A dictionary that hints keep in step with a segment of memory: where its
/// accesses end, its entries, and the value of absent keys, if any.
pub struct PyDictTracker {
    pub current_ptr: PyRelocatable,
    pub data: Vec<(Felt, Felt)>,
    pub default_value: Option<Felt>,
}

/// What reading `key` gives.
pub open spec fn read_spec(data: Seq<(Felt, Felt)>, default_value: Option<Felt>, key: Felt) -> Result<Felt, DictError> {
    match dict_get(data, key) {
        Some(v) => Ok(v),
        None => match default_value {
            Some(d) => Ok(d),
            None => Err(DictError::NoSuchKey(key)),
        },
    }
}

/// `after` is `before` with `key` set to `value`.
pub open spec fn dict_bound(before: Seq<(Felt, Felt)>, key: Felt, value: Felt, after: Seq<(Felt, Felt)>) -> bool {
    &&& dict_get(after, key) == Some(value)
    &&& forall|k: Felt| k != key ==> #[trigger] dict_get(after, k) == dict_get(before, k)
}

/// The index of the tracker of segment `seg`: the first one.
pub open spec fn is_tracker_index(ts: Seq<PyDictTracker>, seg: isize, i: int) -> bool {
    &&& 0 <= i < ts.len()
    &&& ts[i].current_ptr.segment_index == seg
    &&& forall|j: int| 0 <= j < i ==> (#[trigger] ts[j]).current_ptr.segment_index != seg
}

pub open spec fn has_tracker(ts: Seq<PyDictTracker>, seg: isize) -> bool {
    exists|i: int| 0 <= i < ts.len() && (#[trigger] ts[i]).current_ptr.segment_index == seg
}

pub proof fn lemma_dict_set(f: Seq<(Felt, Felt)>, j: int, g: Seq<(Felt, Felt)>, key: Felt, value: Felt)
    requires
        0 <= j < f.len(),
        f[j].0 == key,
        g == f.update(j, (key, value)),
        forall|i: int| j < i < f.len() ==> (#[trigger] f[i]).0 != key,
    ensures
        dict_bound(f, key, value, g),
    decreases f.len() - j,
{
    if j == f.len() - 1 {
        assert(g.drop_last() =~= f.drop_last());
        assert forall|k: Felt| k != key implies #[trigger] dict_get(g, k) == dict_get(f, k) by {}
    } else {
        let g1 = g.drop_last();
        let f1 = f.drop_last();
        assert(g1 =~= f1.update(j, (key, value)));
        lemma_dict_set(f1, j, g1, key, value);
        assert(g.last() == f.last());
        assert forall|k: Felt| k != key implies #[trigger] dict_get(g, k) == dict_get(f, k) by {
            assert(dict_get(g1, k) == dict_get(f1, k));
        }
    }
}

impl PyDictTracker {
    pub fn get_current_ptr(&self) -> (r: PyRelocatable)
        ensures
            r == self.current_ptr,
    {
        self.current_ptr
    }

    pub fn get_data(&self) -> (r: &Vec<(Felt, Felt)>)
        ensures
            r@ == self.data@,
    {
        &self.data
    }

    /// The value of `key`, or the default where the key is absent.
    pub fn get_value(&self, key: &Felt) -> (r: Result<Felt, DictError>)
        ensures
            r == read_spec(self.data@, self.default_value, *key),
    {
        let mut j: usize = self.data.len();
        assert(self.data@.take(j as int) =~= self.data@);
        while j > 0
            invariant
                j <= self.data@.len(),
                dict_get(self.data@, *key) == dict_get(self.data@.take(j as int), *key),
            decreases j,
        {
            assert(self.data@.take(j as int).drop_last() =~= self.data@.take(j - 1));
            if self.data[j - 1].0 == *key {
                return Ok(self.data[j - 1].1);
            }
            j = j - 1;
        }
        match self.default_value {
            Some(d) => Ok(d),
            None => Err(DictError::NoSuchKey(*key)),
        }
    }

    /// Sets `key` to `value`.
    pub fn insert_value(&mut self, key: &Felt, value: &Felt)
        ensures
            dict_bound(old(self).data@, *key, *value, final(self).data@),
            final(self).current_ptr == old(self).current_ptr,
            final(self).default_value == old(self).default_value,
    {
        let mut j: usize = self.data.len();
        while j > 0
            invariant
                j <= self.data@.len(),
                forall|i: int| j <= i < self.data@.len() ==> (#[trigger] self.data@[i]).0 != *key,
                self.data@ == old(self).data@,
                self.current_ptr == old(self).current_ptr,
                self.default_value == old(self).default_value,
            decreases j,
        {
            if self.data[j - 1].0 == *key {
                let ghost g0 = self.data@;
                self.data.set(j - 1, (*key, *value));
                proof {
                    lemma_dict_set(g0, j - 1, self.data@, *key, *value);
                }
                return;
            }
            j = j - 1;
        }
        let ghost g0 = self.data@;
        self.data.push((*key, *value));
        assert(self.data@.drop_last() =~= g0);
    }
}

/// The dictionaries of a run, each keyed by the segment it lives in.
pub struct PyDictManager {
    pub trackers: Vec<PyDictTracker>,
}

impl PyDictManager {
    pub fn new() -> (r: PyDictManager)
        ensures
            r.trackers@.len() == 0,
    {
        PyDictManager { trackers: Vec::new() }
    }

    fn tracker_index(&self, seg: isize) -> (r: Option<usize>)
        ensures
            r matches Some(i) ==> is_tracker_index(self.trackers@, seg, i as int),
            r is None ==> !has_tracker(self.trackers@, seg),
    {
        let mut i: usize = 0;
        while i < self.trackers.len()
            invariant
                i <= self.trackers@.len(),
                forall|j: int| 0 <= j < i ==> (#[trigger] self.trackers@[j]).current_ptr.segment_index != seg,
            decreases self.trackers.len() - i,
        {
            if self.trackers[i].current_ptr.segment_index == seg {
                return Some(i);
            }
            i = i + 1;
        }
        None
    }

    /// Adds a segment for a new dictionary with the given entries and no default,
    /// and returns the segment's base.
    pub fn new_dict(&mut self, memory: &mut PyMemory, initial_dict: Vec<(Felt, Felt)>) -> (r: PyRelocatable)
        requires
            old(memory)@.len() < isize::MAX,
        ensures
            r == (PyRelocatable { segment_index: old(memory)@.len() as isize, offset: 0 }),
            final(memory)@ == old(memory)@.push(Seq::empty()),
            final(self).trackers@ == old(self).trackers@.push(
                PyDictTracker { current_ptr: r, data: initial_dict, default_value: None },
            ),
    {
        let base = memory.add_segment();
        self.trackers.push(PyDictTracker { current_ptr: base, data: initial_dict, default_value: None });
        base
    }

    /// Adds a segment for a new dictionary in which absent keys read as
    /// `default_value`, and returns the segment's base.
    pub fn new_default_dict(
        &mut self,
        memory: &mut PyMemory,
        default_value: Felt,
        initial_dict: Option<Vec<(Felt, Felt)>>,
    ) -> (r: PyRelocatable)
        requires
            old(memory)@.len() < isize::MAX,
        ensures
            r == (PyRelocatable { segment_index: old(memory)@.len() as isize, offset: 0 }),
            final(memory)@ == old(memory)@.push(Seq::empty()),
            final(self).trackers@.len() == old(self).trackers@.len() + 1,
            final(self).trackers@.drop_last() == old(self).trackers@,
            final(self).trackers@.last().current_ptr == r,
            final(self).trackers@.last().default_value == Some(default_value),
            final(self).trackers@.last().data@ == match initial_dict {
                Some(d) => d@,
                None => Seq::<(Felt, Felt)>::empty(),
            },
    {
        let base = memory.add_segment();
        let data = match initial_dict {
            Some(d) => d,
            None => Vec::new(),
        };
        self.trackers.push(PyDictTracker { current_ptr: base, data, default_value: Some(default_value) });
        assert(self.trackers@.drop_last() =~= old(self).trackers@);
        base
    }

    /// The dictionary of the segment `dict_ptr` points into.
    pub fn get_tracker(&self, dict_ptr: &PyRelocatable) -> (r: Result<&PyDictTracker, DictError>)
        ensures
            r is Ok <==> has_tracker(self.trackers@, dict_ptr.segment_index),
            r matches Ok(t) ==> exists|i: int| is_tracker_index(self.trackers@, dict_ptr.segment_index, i) && self.trackers@[i] == *t,
            r matches Err(e) ==> e == DictError::NoDictTracker(dict_ptr.segment_index),
    {
        match self.tracker_index(dict_ptr.segment_index) {
            Some(i) => Ok(&self.trackers[i]),
            None => Err(DictError::NoDictTracker(dict_ptr.segment_index)),
        }
    }

    /// Reads `key` from the dictionary of `dict_ptr`'s segment.
    pub fn read(&self, dict_ptr: &PyRelocatable, key: &Felt) -> (r: Result<Felt, DictError>)
        ensures
            !has_tracker(self.trackers@, dict_ptr.segment_index) ==> r == Err::<Felt, DictError>(
                DictError::NoDictTracker(dict_ptr.segment_index),
            ),
            forall|i: int| #[trigger] is_tracker_index(self.trackers@, dict_ptr.segment_index, i) ==> r
                == read_spec(self.trackers@[i].data@, self.trackers@[i].default_value, *key),
    {
        match self.tracker_index(dict_ptr.segment_index) {
            Some(i) => {
                proof {
                    lemma_tracker_index_unique(self.trackers@, dict_ptr.segment_index, i as int);
                }
                self.trackers[i].get_value(key)
            },
            None => Err(DictError::NoDictTracker(dict_ptr.segment_index)),
        }
    }

    /// Sets `key` to `value` in the dictionary of `dict_ptr`'s segment.
    pub fn write(&mut self, dict_ptr: &PyRelocatable, key: &Felt, value: &Felt) -> (r: Result<(), DictError>)
        ensures
            r is Ok <==> has_tracker(old(self).trackers@, dict_ptr.segment_index),
            r is Err ==> final(self).trackers@ == old(self).trackers@ && r == Err::<(), DictError>(
                DictError::NoDictTracker(dict_ptr.segment_index),
            ),
            final(self).trackers@.len() == old(self).trackers@.len(),
            forall|i: int| #[trigger] is_tracker_index(old(self).trackers@, dict_ptr.segment_index, i) ==> {
                &&& dict_bound(old(self).trackers@[i].data@, *key, *value, final(self).trackers@[i].data@)
                &&& final(self).trackers@[i].current_ptr == old(self).trackers@[i].current_ptr
                &&& final(self).trackers@[i].default_value == old(self).trackers@[i].default_value
                &&& forall|j: int| 0 <= j < old(self).trackers@.len() && j != i ==> #[trigger] final(self).trackers@[j]
                    == old(self).trackers@[j]
            },
    {
        match self.tracker_index(dict_ptr.segment_index) {
            Some(i) => {
                proof {
                    lemma_tracker_index_unique(self.trackers@, dict_ptr.segment_index, i as int);
                }
                self.trackers[i].insert_value(key, value);
                Ok(())
            },
            None => Err(DictError::NoDictTracker(dict_ptr.segment_index)),
        }
    }

    /// Moves the end of the accesses of the dictionary of `dict_ptr`'s segment to
    /// `new_ptr`, which must stay in that segment and not go back.
    pub fn set_current_ptr(&mut self, dict_ptr: &PyRelocatable, new_ptr: PyRelocatable) -> (r: Result<(), DictError>)
        ensures
            final(self).trackers@.len() == old(self).trackers@.len(),
            !has_tracker(old(self).trackers@, dict_ptr.segment_index) ==> r == Err::<(), DictError>(
                DictError::NoDictTracker(dict_ptr.segment_index),
            ) && final(self).trackers@ == old(self).trackers@,
            forall|i: int| #[trigger] is_tracker_index(old(self).trackers@, dict_ptr.segment_index, i) ==> {
                let t = old(self).trackers@[i];
                if new_ptr.segment_index == t.current_ptr.segment_index && new_ptr.offset >= t.current_ptr.offset {
                    &&& r is Ok
                    &&& final(self).trackers@ == old(self).trackers@.update(
                        i,
                        PyDictTracker { current_ptr: new_ptr, data: t.data, default_value: t.default_value },
                    )
                } else {
                    &&& r == Err::<(), DictError>(DictError::InvalidCurrentPtr(new_ptr))
                    &&& final(self).trackers@ == old(self).trackers@
                }
            },
    {
        match self.tracker_index(dict_ptr.segment_index) {
            Some(i) => {
                proof {
                    lemma_tracker_index_unique(self.trackers@, dict_ptr.segment_index, i as int);
                }
                let cur = self.trackers[i].current_ptr;
                if new_ptr.segment_index != cur.segment_index || new_ptr.offset < cur.offset {
                    return Err(DictError::InvalidCurrentPtr(new_ptr));
                }
                self.trackers[i].current_ptr = new_ptr;
                Ok(())
            },
            None => Err(DictError::NoDictTracker(dict_ptr.segment_index)),
        }
    }
}

pub proof fn lemma_tracker_index_unique(ts: Seq<PyDictTracker>, seg: isize, i: int)
    requires
        is_tracker_index(ts, seg, i),
    ensures
        forall|j: int| #[trigger] is_tracker_index(ts, seg, j) ==> j == i,
{
    assert forall|j: int| #[trigger] is_tracker_index(ts, seg, j) implies j == i by {
        if j < i {
            assert(ts[j].current_ptr.segment_index != seg);
        } else if j > i {
            assert(ts[i].current_ptr.segment_index != seg);
        }
    }
}

/// A dictionary with a default reads the default for every key never written,
/// and reads back the value last written for a key.
pub proof fn lemma_default_dict(
    data: Seq<(Felt, Felt)>,
    default_value: Felt,
    unwritten: Felt,
    key: Felt,
    value: Felt,
    after: Seq<(Felt, Felt)>,
)
    requires
        dict_get(data, unwritten) is None,
        dict_bound(data, key, value, after),
    ensures
        read_spec(data, Some(default_value), unwritten) == Ok::<Felt, DictError>(default_value),
        read_spec(after, Some(default_value), key) == Ok::<Felt, DictError>(value),
        unwritten != key ==> read_spec(after, Some(default_value), unwritten) == Ok::<Felt, DictError>(default_value),
{
}

} // verus!
