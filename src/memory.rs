use vstd::prelude::*;
use crate::felt::Felt;
use crate::relocatable::{PyMaybeRelocatable, PyRelocatable};

verus! {

/// What memory holds: for each segment, its cells, each written or not.
pub type MemoryView = Seq<Seq<Option<PyMaybeRelocatable>>>;

/// Errors of memory access.
#[derive(Clone, Copy, Debug, PartialEq, Eq, Structural)]
pub enum MemoryError {
    /// The address names a segment that was never added.
    UnallocatedSegment(PyRelocatable),
    /// The cell already holds a different value.
    DuplicateInconsistentWrite(PyRelocatable),
    /// A cell of a requested range was never written.
    UnknownMemoryCell(PyRelocatable),
    /// A cell of a requested range holds an address where a number was expected.
    ExpectedInteger(PyRelocatable),
    /// An offset or a flat address would not fit in a machine word.
    OffsetOutOfRange,
}

/// An argument handed to a program: a value, or an array (whose elements are
/// arguments in turn) that is written to a segment of its own and passed by its
/// base.
#[derive(Debug)]
pub enum CairoArg {
    Value(PyMaybeRelocatable),
    Array(Vec<CairoArg>),
}

/// The cells a sequence of values becomes when written from offset 0.
pub open spec fn as_cells(data: Seq<PyMaybeRelocatable>) -> Seq<Option<PyMaybeRelocatable>> {
    data.map_values(|v: PyMaybeRelocatable| Some(v))
}

pub open spec fn cell_of(m: MemoryView, a: PyRelocatable) -> Option<PyMaybeRelocatable> {
    if 0 <= a.segment_index < m.len() && a.offset < m[a.segment_index as int].len() {
        m[a.segment_index as int][a.offset as int]
    } else {
        None
    }
}

/// The address `i` cells after `a`.
pub open spec fn shift(a: PyRelocatable, i: int) -> PyRelocatable {
    PyRelocatable { segment_index: a.segment_index, offset: (a.offset + i) as usize }
}

/// Writing `v` at `a` is allowed: the segment exists, the offset leaves room for the
/// cell, and the cell is empty or already holds `v`.
pub open spec fn insert_ok(m: MemoryView, a: PyRelocatable, v: PyMaybeRelocatable) -> bool {
    &&& 0 <= a.segment_index < m.len()
    &&& a.offset < usize::MAX
    &&& (cell_of(m, a) is None || cell_of(m, a) == Some(v))
}

/// Memory after `v` is written at `a`; the segment grows with empty cells as needed.
pub open spec fn insert_spec(m: MemoryView, a: PyRelocatable, v: PyMaybeRelocatable) -> MemoryView {
    let s = m[a.segment_index as int];
    let off = a.offset as int;
    if off < s.len() {
        m.update(a.segment_index as int, s.update(off, Some(v)))
    } else {
        m.update(
            a.segment_index as int,
            s + Seq::new((off - s.len()) as nat, |i: int| None::<PyMaybeRelocatable>) + seq![
                Some(v),
            ],
        )
    }
}

/// Memory after `data` is written cell by cell from `ptr`, if every write is allowed.
pub open spec fn load_spec(m: MemoryView, ptr: PyRelocatable, data: Seq<PyMaybeRelocatable>) -> Option<
    MemoryView,
>
    decreases data.len(),
{
    if data.len() == 0 {
        Some(m)
    } else {
        match load_spec(m, ptr, data.drop_last()) {
            Some(m1) => {
                let a = shift(ptr, data.len() - 1);
                if insert_ok(m1, a, data.last()) {
                    Some(insert_spec(m1, a, data.last()))
                } else {
                    None
                }
            },
            None => None,
        }
    }
}

pub open spec fn range_written(m: MemoryView, a: PyRelocatable, n: int) -> bool {
    forall|i: int| 0 <= i < n ==> (#[trigger] cell_of(m, shift(a, i))) is Some
}

pub open spec fn range_values(m: MemoryView, a: PyRelocatable, n: int) -> Seq<PyMaybeRelocatable> {
    Seq::new(n as nat, |i: int| cell_of(m, shift(a, i)).unwrap())
}

/// Where each segment starts once memory is flattened: segment 0 at 1, each
/// later one right after the cells of the one before.
pub open spec fn segment_base(m: MemoryView, i: int) -> int
    decreases i,
{
    if i <= 0 {
        1
    } else {
        segment_base(m, i - 1) + m[i - 1].len()
    }
}

/// The bases of all segments.
pub open spec fn segment_bases(m: MemoryView) -> Seq<usize> {
    Seq::new(m.len(), |i: int| segment_base(m, i) as usize)
}

/// The flat value of a cell, given the segments' bases.
pub open spec fn relocate_value_spec(bases: Seq<usize>, v: PyMaybeRelocatable) -> Option<Felt> {
    match v {
        PyMaybeRelocatable::Int(f) => Some(f),
        PyMaybeRelocatable::RelocatableValue(a) => if 0 <= a.segment_index < bases.len()
            && bases[a.segment_index as int] + a.offset <= usize::MAX {
            Some(
                Felt {
                    w0: (bases[a.segment_index as int] + a.offset) as u64,
                    w1: 0,
                    w2: 0,
                    w3: 0,
                },
            )
        } else {
            None
        },
    }
}

pub open spec fn cell_relocates(bases: Seq<usize>, c: Option<PyMaybeRelocatable>) -> bool {
    c matches Some(v) ==> relocate_value_spec(bases, v) is Some
}

pub open spec fn relocate_cell(bases: Seq<usize>, c: Option<PyMaybeRelocatable>) -> Option<Felt> {
    match c {
        Some(v) => relocate_value_spec(bases, v),
        None => None,
    }
}

/// The flattened memory of the first `k` segments: flat address 0 is never
/// used, and the segments follow one another in order.
pub open spec fn flatten(m: MemoryView, bases: Seq<usize>, k: int) -> Seq<Option<Felt>>
    decreases k,
{
    if k <= 0 {
        seq![None]
    } else {
        flatten(m, bases, k - 1) + m[k - 1].map_values(|c| relocate_cell(bases, c))
    }
}

/// Segmented, write-once memory.
pub struct PyMemory {
    pub data: Vec<Vec<Option<PyMaybeRelocatable>>>,
}

impl View for PyMemory {
    type V = MemoryView;

    open spec fn view(&self) -> MemoryView {
        self.data@.map_values(|s: Vec<Option<PyMaybeRelocatable>>| s@)
    }
}

impl PyMemory {
    pub fn new() -> (r: PyMemory)
        ensures
            r@ == Seq::<Seq<Option<PyMaybeRelocatable>>>::empty(),
    {
        let r = PyMemory { data: Vec::new() };
        assert(r@ =~= Seq::<Seq<Option<PyMaybeRelocatable>>>::empty());
        r
    }

    pub fn num_segments(&self) -> (r: usize)
        ensures
            r == self@.len(),
    {
        self.data.len()
    }

    /// Allocates a new, empty segment and returns its base address.
    pub fn add_segment(&mut self) -> (r: PyRelocatable)
        requires
            old(self)@.len() < isize::MAX,
        ensures
            final(self)@ == old(self)@.push(Seq::empty()),
            r == (PyRelocatable { segment_index: old(self)@.len() as isize, offset: 0 }),
    {
        let n = self.data.len();
        self.data.push(Vec::new());
        assert(self@ =~= old(self)@.push(Seq::empty()));
        PyRelocatable { segment_index: n as isize, offset: 0 }
    }

    /// The number of cells of segment `index`, up to its last written one.
    pub fn get_segment_used_size(&self, index: usize) -> (r: Option<usize>)
        ensures
            r is Some <==> index < self@.len(),
            r matches Some(n) ==> n == self@[index as int].len(),
    {
        if index < self.data.len() {
            Some(self.data[index].len())
        } else {
            None
        }
    }

    /// The value at `key`, if that cell was written.
    pub fn get(&self, key: &PyRelocatable) -> (r: Option<PyMaybeRelocatable>)
        ensures
            r == cell_of(self@, *key),
    {
        if key.segment_index >= 0 && (key.segment_index as usize) < self.data.len() {
            let s = &self.data[key.segment_index as usize];
            if key.offset < s.len() {
                s[key.offset]
            } else {
                None
            }
        } else {
            None
        }
    }

    /// Writes `value` at `key`. Writing the value a cell already holds changes
    /// nothing; writing another one is refused.
    pub fn insert(&mut self, key: &PyRelocatable, value: PyMaybeRelocatable) -> (r: Result<
        (),
        MemoryError,
    >)
        ensures
            r is Ok <==> insert_ok(old(self)@, *key, value),
            r is Ok ==> final(self)@ == insert_spec(old(self)@, *key, value),
            r is Err ==> final(self)@ == old(self)@,
            r matches Err(e) ==> e == if !(0 <= key.segment_index < old(self)@.len()) {
                MemoryError::UnallocatedSegment(*key)
            } else if key.offset == usize::MAX {
                MemoryError::OffsetOutOfRange
            } else {
                MemoryError::DuplicateInconsistentWrite(*key)
            },
    {
        if key.segment_index < 0 || key.segment_index as usize >= self.data.len() {
            return Err(MemoryError::UnallocatedSegment(*key));
        }
        if key.offset == usize::MAX {
            return Err(MemoryError::OffsetOutOfRange);
        }
        let seg = key.segment_index as usize;
        let off = key.offset;
        let ghost s0 = self.data@[seg as int]@;
        if off < self.data[seg].len() {
            match self.data[seg][off] {
                Some(cur) => {
                    if cur != value {
                        return Err(MemoryError::DuplicateInconsistentWrite(*key));
                    }
                },
                None => {},
            }
            self.data[seg][off] = Some(value);
            assert(self@ =~= insert_spec(old(self)@, *key, value));
        } else {
            while self.data[seg].len() < off
                invariant
                    seg < self.data.len(),
                    self.data.len() == old(self).data.len(),
                    s0.len() <= self.data@[seg as int]@.len() <= off,
                    self.data@[seg as int]@ =~= s0 + Seq::new(
                        (self.data@[seg as int]@.len() - s0.len()) as nat,
                        |i: int| None::<PyMaybeRelocatable>,
                    ),
                    forall|j: int|
                        0 <= j < self.data.len() && j != seg ==> self.data@[j] == old(
                            self,
                        ).data@[j],
                decreases off - self.data@[seg as int]@.len(),
            {
                self.data[seg].push(None);
            }
            self.data[seg].push(Some(value));
            assert(self.data@[seg as int]@ =~= s0 + Seq::new(
                (off - s0.len()) as nat,
                |i: int| None::<PyMaybeRelocatable>,
            ) + seq![Some(value)]);
            assert(self@ =~= insert_spec(old(self)@, *key, value));
        }
        Ok(())
    }

    /// The values of `size` consecutive cells from `addr`; every one of them must
    /// have been written.
    pub fn get_range(&self, addr: &PyRelocatable, size: usize) -> (r: Result<
        Vec<PyMaybeRelocatable>,
        MemoryError,
    >)
        ensures
            r is Ok <==> addr.offset + size <= usize::MAX && range_written(self@, *addr, size as int),
            r matches Ok(v) ==> v@ == range_values(self@, *addr, size as int),
            r matches Err(e) ==> (addr.offset + size > usize::MAX && e == MemoryError::OffsetOutOfRange)
                || (exists|i: int| 0 <= i < size && e == MemoryError::UnknownMemoryCell(shift(*addr, i))
                    && cell_of(self@, shift(*addr, i)) is None),
    {
        if addr.offset.checked_add(size).is_none() {
            return Err(MemoryError::OffsetOutOfRange);
        }
        let mut out: Vec<PyMaybeRelocatable> = Vec::new();
        let mut i: usize = 0;
        while i < size
            invariant
                i <= size,
                addr.offset + size <= usize::MAX,
                range_written(self@, *addr, i as int),
                out@ == range_values(self@, *addr, i as int),
            decreases size - i,
        {
            let a = PyRelocatable { segment_index: addr.segment_index, offset: addr.offset + i };
            assert(a == shift(*addr, i as int));
            match self.get(&a) {
                Some(v) => {
                    out.push(v);
                },
                None => {
                    return Err(MemoryError::UnknownMemoryCell(a));
                },
            }
            i = i + 1;
            assert(out@ =~= range_values(self@, *addr, i as int));
        }
        Ok(out)
    }

    /// The numbers held in `size` consecutive cells from `addr`.
    pub fn get_range_as_ints(&self, addr: &PyRelocatable, size: usize) -> (r: Result<
        Vec<Felt>,
        MemoryError,
    >)
        ensures
            r is Ok <==> addr.offset + size <= usize::MAX && range_written(self@, *addr, size as int)
                && forall|i: int| 0 <= i < size ==> #[trigger] range_values(self@, *addr, size as int)[i] is Int,
            r matches Ok(v) ==> v@.len() == size && forall|i: int| 0 <= i < size ==>
                range_values(self@, *addr, size as int)[i] == PyMaybeRelocatable::Int(#[trigger] v@[i]),
    {
        let vals = match self.get_range(addr, size) {
            Ok(v) => v,
            Err(e) => {
                return Err(e);
            },
        };
        let mut out: Vec<Felt> = Vec::new();
        let mut i: usize = 0;
        while i < vals.len()
            invariant
                i <= vals.len(),
                vals@.len() == size,
                addr.offset + size <= usize::MAX,
                vals@ == range_values(self@, *addr, size as int),
                out@.len() == i,
                forall|j: int| 0 <= j < i ==> vals@[j] == PyMaybeRelocatable::Int(#[trigger] out@[j]),
            decreases vals.len() - i,
        {
            match vals[i] {
                PyMaybeRelocatable::Int(f) => {
                    out.push(f);
                },
                PyMaybeRelocatable::RelocatableValue(_) => {
                    assert(!(range_values(self@, *addr, size as int)[i as int] is Int));
                    return Err(
                        MemoryError::ExpectedInteger(
                            PyRelocatable { segment_index: addr.segment_index, offset: addr.offset + i },
                        ),
                    );
                },
            }
            i = i + 1;
        }
        assert forall|j: int| 0 <= j < size implies #[trigger] range_values(
            self@,
            *addr,
            size as int,
        )[j] is Int by {
            assert(vals@[j] == PyMaybeRelocatable::Int(out@[j]));
        }
        Ok(out)
    }

    /// The flat address at which each segment starts.
    pub fn relocate_segments(&self) -> (r: Result<Vec<usize>, MemoryError>)
        ensures
            r is Ok <==> segment_base(self@, self@.len() as int) <= usize::MAX,
            r matches Ok(b) ==> b@.len() == self@.len() && forall|i: int|
                0 <= i < self@.len() ==> #[trigger] b@[i] as int == segment_base(self@, i),
            r matches Err(e) ==> e == MemoryError::OffsetOutOfRange,
    {
        let mut bases: Vec<usize> = Vec::new();
        let mut next: usize = 1;
        let mut i: usize = 0;
        while i < self.data.len()
            invariant
                i <= self.data.len(),
                next as int == segment_base(self@, i as int),
                bases@.len() == i,
                forall|j: int| 0 <= j < i ==> #[trigger] bases@[j] as int == segment_base(self@, j),
            decreases self.data.len() - i,
        {
            bases.push(next);
            let len = self.data[i].len();
            match next.checked_add(len) {
                Some(n) => {
                    next = n;
                },
                None => {
                    proof {
                        lemma_segment_base_monotonic(self@, i as int + 1, self@.len() as int);
                    }
                    return Err(MemoryError::OffsetOutOfRange);
                },
            }
            i = i + 1;
        }
        Ok(bases)
    }

    /// The flat memory: index 0 unused, then the cells of each segment in order,
    /// with every address replaced by its flat address.
    pub fn relocate_memory(&self, bases: &Vec<usize>) -> (r: Result<Vec<Option<Felt>>, MemoryError>)
        ensures
            r is Ok <==> forall|i: int, j: int|
                0 <= i < self@.len() && 0 <= j < self@[i].len() ==> cell_relocates(bases@, #[trigger] self@[i][j]),
            r matches Ok(v) ==> v@ == flatten(self@, bases@, self@.len() as int),
            r matches Err(e) ==> e == MemoryError::OffsetOutOfRange,
    {
        let mut out: Vec<Option<Felt>> = Vec::new();
        out.push(None);
        assert(out@ =~= flatten(self@, bases@, 0));
        let mut i: usize = 0;
        while i < self.data.len()
            invariant
                i <= self.data.len(),
                out@ == flatten(self@, bases@, i as int),
                forall|a: int, b: int|
                    0 <= a < i && 0 <= b < self@[a].len() ==> cell_relocates(bases@, #[trigger] self@[a][b]),
            decreases self.data.len() - i,
        {
            let seg = &self.data[i];
            let ghost prefix = out@;
            let mut j: usize = 0;
            while j < seg.len()
                invariant
                    i < self.data.len(),
                    seg@ == self@[i as int],
                    j <= seg.len(),
                    out@ == prefix + seg@.take(j as int).map_values(|c| relocate_cell(bases@, c)),
                    forall|b: int| 0 <= b < j ==> cell_relocates(bases@, #[trigger] seg@[b]),
                decreases seg.len() - j,
            {
                let c = match seg[j] {
                    Some(v) => match relocate_value(bases, &v) {
                        Some(f) => Some(f),
                        None => {
                            assert(!cell_relocates(bases@, self@[i as int][j as int]));
                            return Err(MemoryError::OffsetOutOfRange);
                        },
                    },
                    None => None,
                };
                out.push(c);
                j = j + 1;
                assert(seg@.take(j as int) =~= seg@.take(j - 1).push(seg@[j - 1]));
                assert(out@ =~= prefix + seg@.take(j as int).map_values(|c| relocate_cell(bases@, c)));
            }
            assert(seg@.take(j as int) =~= seg@);
            i = i + 1;
        }
        Ok(out)
    }

    /// The value an argument is passed as: a value as it is; an array as the
    /// base of a new segment, which holds the values its elements are passed as,
    /// each nested array in a segment of its own added after it.
    pub fn gen_arg(&mut self, arg: &CairoArg) -> (r: PyMaybeRelocatable)
        requires
            old(self)@.len() + arg_segments(*arg) < isize::MAX,
        ensures
            (final(self)@, r) == gen_arg_spec(old(self)@, *arg),
        decreases arg,
    {
        match arg {
            CairoArg::Value(v) => *v,
            CairoArg::Array(items) => {
                let base = self.add_segment();
                let ghost m1 = self@;
                let mut vals: Vec<PyMaybeRelocatable> = Vec::new();
                let mut i: usize = 0;
                proof {
                    lemma_args_segments_monotonic(items@, 0, items@.len());
                }
                while i < items.len()
                    invariant
                        *arg == CairoArg::Array(*items),
                        i <= items@.len(),
                        m1.len() + args_segments(items@, items@.len()) < isize::MAX,
                        self@.len() == m1.len() + args_segments(items@, i as nat),
                        (self@, vals@) == gen_args_spec(m1, items@, i as nat),
                    decreases items.len() - i,
                {
                    proof {
                        lemma_args_segments_monotonic(items@, (i + 1) as nat, items@.len());
                        lemma_gen_args_grows(m1, items@, (i + 1) as nat);
                        assert(decreases_to!(*arg => arg->Array_0));
                        assert(decreases_to!(arg->Array_0 => arg->Array_0@));
                        assert(decreases_to!(arg->Array_0@ => arg->Array_0@[i as int]));
                        assert(decreases_to!(*arg => items@[i as int]));
                    }
                    let v = self.gen_arg(&items[i]);
                    vals.push(v);
                    i = i + 1;
                }
                proof {
                    lemma_gen_args_grows(m1, items@, items@.len());
                    assert(self@[base.segment_index as int] == m1[base.segment_index as int]);
                    lemma_load_fresh(self@, base.segment_index as int, vals@);
                }
                let _n = vals.len();
                let _ = self.load_data(&base, &vals);
                PyMaybeRelocatable::RelocatableValue(base)
            },
        }
    }

    /// Writes the values the arguments are passed as into consecutive cells from
    /// `ptr`, and returns the address after the last cell.
    pub fn write_arg(&mut self, ptr: &PyRelocatable, args: &Vec<CairoArg>) -> (r: Result<PyRelocatable, MemoryError>)
        requires
            old(self)@.len() + args_segments(args@, args@.len()) < isize::MAX,
        ensures
            ({
                let (m1, vals) = gen_args_spec(old(self)@, args@, args@.len());
                &&& r is Ok <==> ptr.offset + args@.len() <= usize::MAX && load_spec(m1, *ptr, vals) is Some
                &&& r matches Ok(end) ==> end == shift(*ptr, args@.len() as int) && Some(final(self)@) == load_spec(m1, *ptr, vals)
            }),
    {
        let mut vals: Vec<PyMaybeRelocatable> = Vec::new();
        let mut i: usize = 0;
        let ghost m0 = self@;
        while i < args.len()
            invariant
                i <= args@.len(),
                m0 == old(self)@,
                m0.len() + args_segments(args@, args@.len()) < isize::MAX,
                self@.len() == m0.len() + args_segments(args@, i as nat),
                (self@, vals@) == gen_args_spec(m0, args@, i as nat),
            decreases args.len() - i,
        {
            proof {
                lemma_args_segments_monotonic(args@, (i + 1) as nat, args@.len());
                lemma_gen_args_grows(m0, args@, (i + 1) as nat);
            }
            let v = self.gen_arg(&args[i]);
            vals.push(v);
            i = i + 1;
        }
        proof {
            lemma_gen_args_grows(m0, args@, args@.len());
        }
        self.load_data(ptr, &vals)
    }

    /// Writes `data` into consecutive cells from `ptr` and returns the address
    /// right after the last one. A refused write stops it; the cells written
    /// before it stay written.
    pub fn load_data(&mut self, ptr: &PyRelocatable, data: &Vec<PyMaybeRelocatable>) -> (r: Result<
        PyRelocatable,
        MemoryError,
    >)
        ensures
            r is Ok <==> ptr.offset + data@.len() <= usize::MAX && load_spec(old(self)@, *ptr, data@) is Some,
            r matches Ok(end) ==> end == shift(*ptr, data@.len() as int)
                && Some(final(self)@) == load_spec(old(self)@, *ptr, data@),
            r is Err && ptr.offset + data@.len() > usize::MAX ==> final(self)@ == old(self)@,
            r is Err && ptr.offset + data@.len() <= usize::MAX ==> exists|k: int|
                0 <= k < data@.len() && load_spec(old(self)@, *ptr, #[trigger] data@.take(k)) == Some(final(self)@)
                    && !insert_ok(final(self)@, shift(*ptr, k), data@[k]),
    {
        if ptr.offset.checked_add(data.len()).is_none() {
            return Err(MemoryError::OffsetOutOfRange);
        }
        let mut i: usize = 0;
        while i < data.len()
            invariant
                i <= data.len(),
                ptr.offset + data@.len() <= usize::MAX,
                load_spec(old(self)@, *ptr, data@.take(i as int)) == Some(self@),
            decreases data.len() - i,
        {
            let a = PyRelocatable { segment_index: ptr.segment_index, offset: ptr.offset + i };
            assert(data@.take(i + 1).drop_last() =~= data@.take(i as int));
            let res = self.insert(&a, data[i]);
            if res.is_err() {
                proof {
                    lemma_load_spec_stays_none(old(self)@, *ptr, data@, i as int + 1);
                    assert(load_spec(old(self)@, *ptr, data@.take(i as int)) == Some(self@));
                }
                return Err(res.unwrap_err());
            }
            i = i + 1;
        }
        assert(data@.take(data@.len() as int) =~= data@);
        Ok(PyRelocatable { segment_index: ptr.segment_index, offset: ptr.offset + data.len() })
    }
}


/// Memory is write-once: after `v1` is written at `a`, writing `v1` there again
/// is allowed and changes nothing, and writing any other value there is refused.
pub proof fn lemma_write_once(m: MemoryView, a: PyRelocatable, v1: PyMaybeRelocatable, v2: PyMaybeRelocatable)
    requires
        insert_ok(m, a, v1),
    ensures
        insert_ok(insert_spec(m, a, v1), a, v1),
        insert_spec(insert_spec(m, a, v1), a, v1) == insert_spec(m, a, v1),
        v1 != v2 ==> !insert_ok(insert_spec(m, a, v1), a, v2),
{
    let m1 = insert_spec(m, a, v1);
    assert(cell_of(m1, a) == Some(v1));
    assert(insert_spec(m1, a, v1) =~= m1) by {
        assert(m1[a.segment_index as int].update(a.offset as int, Some(v1)) =~= m1[a.segment_index as int]);
    }
}

/// Once a prefix of the data cannot be written, neither can the whole.
pub proof fn lemma_load_spec_stays_none(m: MemoryView, ptr: PyRelocatable, data: Seq<PyMaybeRelocatable>, k: int)
    requires
        0 <= k <= data.len(),
        load_spec(m, ptr, data.take(k)) is None,
    ensures
        load_spec(m, ptr, data) is None,
    decreases data.len() - k,
{
    if k < data.len() {
        assert(data.take(k + 1).drop_last() =~= data.take(k));
        lemma_load_spec_stays_none(m, ptr, data, k + 1);
    } else {
        assert(data.take(k) =~= data);
    }
}

/// The flat address of a cell's value, given the segments' bases.
pub fn relocate_value(bases: &Vec<usize>, v: &PyMaybeRelocatable) -> (r: Option<Felt>)
    ensures
        r == relocate_value_spec(bases@, *v),
{
    match v {
        PyMaybeRelocatable::Int(f) => Some(*f),
        PyMaybeRelocatable::RelocatableValue(a) => {
            if a.segment_index >= 0 && (a.segment_index as usize) < bases.len() {
                match bases[a.segment_index as usize].checked_add(a.offset) {
                    Some(n) => Some(Felt { w0: n as u64, w1: 0, w2: 0, w3: 0 }),
                    None => None,
                }
            } else {
                None
            }
        },
    }
}

pub proof fn lemma_segment_base_monotonic(m: MemoryView, i: int, j: int)
    requires
        0 <= i <= j,
    ensures
        segment_base(m, i) <= segment_base(m, j),
    decreases j - i,
{
    if i < j {
        lemma_segment_base_monotonic(m, i, j - 1);
    }
}

/// Relocation is deterministic: over one memory, the segments' bases and the
/// flattened memory are each determined, so two relocations agree.
pub proof fn lemma_relocation_deterministic(m: MemoryView, b1: Seq<usize>, b2: Seq<usize>)
    requires
        b1.len() == m.len(),
        b2.len() == m.len(),
        forall|i: int| 0 <= i < m.len() ==> #[trigger] b1[i] as int == segment_base(m, i),
        forall|i: int| 0 <= i < m.len() ==> #[trigger] b2[i] as int == segment_base(m, i),
    ensures
        b1 == b2,
        flatten(m, b1, m.len() as int) == flatten(m, b2, m.len() as int),
{
    assert(b1 =~= b2);
}

/// The number of segments an argument adds: one per array, nested ones
/// included.
pub open spec fn arg_segments(arg: CairoArg) -> nat
    decreases arg, 0nat,
{
    match arg {
        CairoArg::Value(_) => 0,
        CairoArg::Array(items) => 1 + args_segments(items@, items@.len()),
    }
}

/// The number of segments the first `k` arguments add.
pub open spec fn args_segments(args: Seq<CairoArg>, k: nat) -> nat
    decreases args, k,
{
    if k == 0 || k > args.len() {
        0
    } else {
        args_segments(args, (k - 1) as nat) + arg_segments(args[k - 1])
    }
}

/// The memory after an argument is generated, and the value it is passed as.
pub open spec fn gen_arg_spec(m: MemoryView, arg: CairoArg) -> (MemoryView, PyMaybeRelocatable)
    decreases arg, 0nat,
{
    match arg {
        CairoArg::Value(v) => (m, v),
        CairoArg::Array(items) => {
            let r = gen_args_spec(m.push(Seq::empty()), items@, items@.len());
            (
                r.0.update(m.len() as int, as_cells(r.1)),
                PyMaybeRelocatable::RelocatableValue(PyRelocatable { segment_index: m.len() as isize, offset: 0 }),
            )
        },
    }
}

/// The memory after the first `k` arguments are generated in turn, and the
/// values they are passed as.
pub open spec fn gen_args_spec(m: MemoryView, args: Seq<CairoArg>, k: nat) -> (MemoryView, Seq<PyMaybeRelocatable>)
    decreases args, k,
{
    if k == 0 || k > args.len() {
        (m, Seq::empty())
    } else {
        let r = gen_args_spec(m, args, (k - 1) as nat);
        let g = gen_arg_spec(r.0, args[k - 1]);
        (g.0, r.1.push(g.1))
    }
}

pub proof fn lemma_args_segments_monotonic(args: Seq<CairoArg>, k: nat, n: nat)
    requires
        k <= n <= args.len(),
    ensures
        args_segments(args, k) <= args_segments(args, n),
    decreases n - k,
{
    if k < n {
        lemma_args_segments_monotonic(args, k, (n - 1) as nat);
    }
}

/// Generating an argument adds its segments after the existing ones and leaves
/// those as they were.
pub proof fn lemma_gen_arg_grows(m: MemoryView, arg: CairoArg)
    ensures
        gen_arg_spec(m, arg).0.len() == m.len() + arg_segments(arg),
        forall|i: int| 0 <= i < m.len() ==> #[trigger] gen_arg_spec(m, arg).0[i] == m[i],
    decreases arg, 0nat,
{
    match arg {
        CairoArg::Value(_) => {},
        CairoArg::Array(items) => {
            lemma_gen_args_grows(m.push(Seq::empty()), items@, items@.len());
        },
    }
}

pub proof fn lemma_gen_args_grows(m: MemoryView, args: Seq<CairoArg>, k: nat)
    ensures
        gen_args_spec(m, args, k).0.len() == m.len() + args_segments(args, k),
        gen_args_spec(m, args, k).1.len() == if k <= args.len() { k } else { 0 },
        forall|i: int| 0 <= i < m.len() ==> #[trigger] gen_args_spec(m, args, k).0[i] == m[i],
    decreases args, k,
{
    if k == 0 || k > args.len() {
    } else {
        lemma_gen_args_grows(m, args, (k - 1) as nat);
        let r = gen_args_spec(m, args, (k - 1) as nat);
        lemma_gen_arg_grows(r.0, args[k - 1]);
    }
}

/// Writing data from the base of an empty segment always succeeds and leaves the
/// segment holding exactly that data.
pub proof fn lemma_load_fresh(m: MemoryView, seg: int, data: Seq<PyMaybeRelocatable>)
    requires
        0 <= seg < m.len(),
        seg <= isize::MAX,
        m[seg].len() == 0,
        data.len() <= usize::MAX,
    ensures
        load_spec(m, PyRelocatable { segment_index: seg as isize, offset: 0 }, data) == Some(m.update(seg, as_cells(data))),
    decreases data.len(),
{
    let ptr = PyRelocatable { segment_index: seg as isize, offset: 0 };
    if data.len() == 0 {
        assert(as_cells(data) =~= m[seg]);
        assert(m.update(seg, as_cells(data)) =~= m);
    } else {
        let d0 = data.drop_last();
        lemma_load_fresh(m, seg, d0);
        let m1 = m.update(seg, as_cells(d0));
        let a = shift(ptr, data.len() - 1);
        assert(cell_of(m1, a) is None);
        assert(insert_spec(m1, a, data.last()) =~= m.update(seg, as_cells(data))) by {
            assert(as_cells(d0) + Seq::new(0, |i: int| None::<PyMaybeRelocatable>) + seq![Some(data.last())] =~= as_cells(data));
        }
    }
}

} // verus!
