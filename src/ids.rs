use vstd::prelude::*;
use crate::felt::Felt;
use crate::memory::{cell_of, insert_ok, insert_spec, MemoryError, MemoryView, PyMemory};
use crate::scope_manager::{frame_get, frame_lookup};
use crate::utils::{const_name, const_path_to_const_name, last_path_segment};
use crate::relocatable::{PyMaybeRelocatable, PyRelocatable};
use crate::run_context::PyRunContext;

verus! {

/// The register a reference is relative to.
#[derive(Clone, Copy, Debug, PartialEq, Eq, Structural)]
pub enum Register {
    AP,
    FP,
}

/// One operand of a reference.
#[derive(Clone, Copy, Debug, PartialEq, Eq, Structural)]
pub enum OffsetValue {
    /// A constant value.
    Immediate(Felt),
    /// A plain offset.
    Value(i32),
    /// A register plus an offset, read from memory when the flag is set.
    Reference(Register, i32, bool),
}

/// Where the allocation pointer stood, relative to the start of a group of
/// instructions in which it only moves by known amounts.
#[derive(Clone, Copy, Debug, PartialEq, Eq, Structural)]
pub struct ApTracking {
    pub group: usize,
    pub offset: usize,
}

/// How a hint's variable is found: two operands, whether the address they give
/// is read, and the allocation-pointer tracking of the reference.
#[derive(Debug)]
pub struct HintReference {
    pub offset1: OffsetValue,
    pub offset2: OffsetValue,
    pub dereference: bool,
    pub ap_tracking_data: Option<ApTracking>,
    pub cairo_type: Option<String>,
}

/// The address `off` cells from `a`, if the offset stays in range.
pub open spec fn shift_by(a: PyRelocatable, off: int) -> Option<PyRelocatable> {
    if 0 <= a.offset + off <= usize::MAX {
        Some(PyRelocatable { segment_index: a.segment_index, offset: (a.offset + off) as usize })
    } else {
        None
    }
}

/// The allocation pointer as it stood when the reference was made, which needs
/// both to lie in the same tracking group.
pub open spec fn ap_corrected(ap: PyRelocatable, ref_tracking: Option<ApTracking>, hint_tracking: ApTracking) -> Option<PyRelocatable> {
    match ref_tracking {
        Some(t) => if t.group != hint_tracking.group {
            None
        } else {
            shift_by(ap, t.offset - hint_tracking.offset)
        },
        None => None,
    }
}

pub open spec fn register_base(
    ctx: PyRunContext,
    ref_tracking: Option<ApTracking>,
    hint_tracking: ApTracking,
    reg: Register,
) -> Option<PyRelocatable> {
    match reg {
        Register::FP => Some(ctx.fp),
        Register::AP => ap_corrected(ctx.ap, ref_tracking, hint_tracking),
    }
}

/// The value of a register operand: the address, or what memory holds there.
pub open spec fn operand_value(
    m: MemoryView,
    ctx: PyRunContext,
    ref_tracking: Option<ApTracking>,
    hint_tracking: ApTracking,
    reg: Register,
    off: i32,
    deref: bool,
) -> Option<PyMaybeRelocatable> {
    match register_base(ctx, ref_tracking, hint_tracking, reg) {
        Some(b) => match shift_by(b, off as int) {
            Some(a) => if deref {
                cell_of(m, a)
            } else {
                Some(PyMaybeRelocatable::RelocatableValue(a))
            },
            None => None,
        },
        None => None,
    }
}

/// The address a reference names: the first operand must give an address, the
/// second a number of cells to add to it.
pub open spec fn reference_address(m: MemoryView, ctx: PyRunContext, r: HintReference, hint_tracking: ApTracking) -> Option<PyRelocatable> {
    match r.offset1 {
        OffsetValue::Reference(reg, off, deref) => match operand_value(m, ctx, r.ap_tracking_data, hint_tracking, reg, off, deref) {
            Some(PyMaybeRelocatable::RelocatableValue(base)) => match r.offset2 {
                OffsetValue::Value(v) => shift_by(base, v as int),
                OffsetValue::Reference(reg2, off2, deref2) => match operand_value(m, ctx, r.ap_tracking_data, hint_tracking, reg2, off2, deref2) {
                    Some(PyMaybeRelocatable::Int(f)) => if f.value() <= usize::MAX {
                        shift_by(base, f.value())
                    } else {
                        None
                    },
                    _ => None,
                },
                OffsetValue::Immediate(_) => None,
            },
            _ => None,
        },
        _ => None,
    }
}

/// The value of a reference: a constant, or the address it names, read from
/// memory when the reference says so.
pub open spec fn reference_value(m: MemoryView, ctx: PyRunContext, r: HintReference, hint_tracking: ApTracking) -> Option<PyMaybeRelocatable> {
    match r.offset1 {
        OffsetValue::Immediate(f) => Some(PyMaybeRelocatable::Int(f)),
        _ => match reference_address(m, ctx, r, hint_tracking) {
            Some(a) => if r.dereference {
                cell_of(m, a)
            } else {
                Some(PyMaybeRelocatable::RelocatableValue(a))
            },
            None => None,
        },
    }
}

/// The address `off` cells from `a`, if the offset stays in range.
pub fn offset_address(a: PyRelocatable, off: i32) -> (r: Option<PyRelocatable>)
    ensures
        r == shift_by(a, off as int),
{
    if off >= 0 {
        match a.offset.checked_add(off as usize) {
            Some(o) => Some(PyRelocatable { segment_index: a.segment_index, offset: o }),
            None => None,
        }
    } else {
        let back: usize = (-(off as i64)) as usize;
        if back <= a.offset {
            Some(PyRelocatable { segment_index: a.segment_index, offset: a.offset - back })
        } else {
            None
        }
    }
}

/// The allocation pointer as it stood when the reference was made.
pub fn apply_ap_tracking_correction(ap: PyRelocatable, ref_tracking: &Option<ApTracking>, hint_tracking: &ApTracking) -> (r: Option<PyRelocatable>)
    ensures
        r == ap_corrected(ap, *ref_tracking, *hint_tracking),
{
    match ref_tracking {
        Some(t) => {
            if t.group != hint_tracking.group {
                None
            } else if t.offset >= hint_tracking.offset {
                match ap.offset.checked_add(t.offset - hint_tracking.offset) {
                    Some(o) => Some(PyRelocatable { segment_index: ap.segment_index, offset: o }),
                    None => None,
                }
            } else {
                let back = hint_tracking.offset - t.offset;
                if back <= ap.offset {
                    Some(PyRelocatable { segment_index: ap.segment_index, offset: ap.offset - back })
                } else {
                    None
                }
            }
        },
        None => None,
    }
}

fn get_operand_value(
    memory: &PyMemory,
    ctx: &PyRunContext,
    ref_tracking: &Option<ApTracking>,
    hint_tracking: &ApTracking,
    reg: Register,
    off: i32,
    deref: bool,
) -> (r: Option<PyMaybeRelocatable>)
    ensures
        r == operand_value(memory@, *ctx, *ref_tracking, *hint_tracking, reg, off, deref),
{
    let base = match reg {
        Register::FP => ctx.fp,
        Register::AP => match apply_ap_tracking_correction(ctx.ap, ref_tracking, hint_tracking) {
            Some(b) => b,
            None => {
                return None;
            },
        },
    };
    match offset_address(base, off) {
        Some(a) => if deref {
            memory.get(&a)
        } else {
            Some(PyMaybeRelocatable::RelocatableValue(a))
        },
        None => None,
    }
}

/// The address the reference names.
pub fn compute_addr_from_reference(
    hint_reference: &HintReference,
    memory: &PyMemory,
    ctx: &PyRunContext,
    hint_ap_tracking: &ApTracking,
) -> (r: Option<PyRelocatable>)
    ensures
        r == reference_address(memory@, *ctx, *hint_reference, *hint_ap_tracking),
{
    let base = match hint_reference.offset1 {
        OffsetValue::Reference(reg, off, deref) => match get_operand_value(
            memory,
            ctx,
            &hint_reference.ap_tracking_data,
            hint_ap_tracking,
            reg,
            off,
            deref,
        ) {
            Some(PyMaybeRelocatable::RelocatableValue(b)) => b,
            _ => {
                return None;
            },
        },
        _ => {
            return None;
        },
    };
    match hint_reference.offset2 {
        OffsetValue::Value(v) => offset_address(base, v),
        OffsetValue::Reference(reg, off, deref) => match get_operand_value(
            memory,
            ctx,
            &hint_reference.ap_tracking_data,
            hint_ap_tracking,
            reg,
            off,
            deref,
        ) {
            Some(PyMaybeRelocatable::Int(f)) => match f.to_usize() {
                Some(n) => match base.offset.checked_add(n) {
                    Some(o) => Some(PyRelocatable { segment_index: base.segment_index, offset: o }),
                    None => None,
                },
                None => None,
            },
            _ => None,
        },
        OffsetValue::Immediate(_) => None,
    }
}

/// The value the reference gives.
pub fn get_value_from_reference(
    memory: &PyMemory,
    ctx: &PyRunContext,
    hint_reference: &HintReference,
    ap_tracking: &ApTracking,
) -> (r: Option<PyMaybeRelocatable>)
    ensures
        r == reference_value(memory@, *ctx, *hint_reference, *ap_tracking),
{
    if let OffsetValue::Immediate(f) = hint_reference.offset1 {
        return Some(PyMaybeRelocatable::Int(f));
    }
    match compute_addr_from_reference(hint_reference, memory, ctx, ap_tracking) {
        Some(a) => if hint_reference.dereference {
            memory.get(&a)
        } else {
            Some(PyMaybeRelocatable::RelocatableValue(a))
        },
        None => None,
    }
}

/// A field of a struct type: its type's name and its offset in the struct.
#[derive(Debug)]
pub struct Member {
    pub cairo_type: String,
    pub offset: usize,
}

/// Errors of the `ids` accessor.
#[derive(Clone, Copy, Debug, PartialEq, Eq, Structural)]
pub enum IdsError {
    /// No reference, constant or struct type has the name, or the reference
    /// cannot be resolved.
    UnknownIdentifier,
    /// The struct type has no field of the name.
    NoSuchAttribute,
    /// The type is not in the struct-type table.
    UnknownStructType,
    /// The field's address is out of range.
    OffsetOutOfRange,
    /// A struct cannot be assigned into a field.
    StructAssignment,
    /// The pointer to a struct does not hold an address.
    ExpectedAddress,
    Memory(MemoryError),
}

/// A typed view of a struct in memory: its address and its type's name.
#[derive(Debug)]
pub struct PyTypedId {
    pub hint_value: PyRelocatable,
    pub cairo_type: String,
}

/// What a field of a typed view gives.
#[derive(Debug)]
pub enum TypedField {
    /// The struct's own address, asked for as `address_`.
    Address(PyRelocatable),
    /// A number or pointer field: what memory holds there, if written.
    Value(Option<PyMaybeRelocatable>),
    /// A struct field: a typed view of it.
    Struct(PyTypedId),
}

/// What a name of `ids` gives.
#[derive(Debug)]
pub enum IdsValue {
    Constant(Felt),
    /// The size of a struct type, named by its last path segment.
    StructSize(usize),
    Typed(PyTypedId),
    Value(PyMaybeRelocatable),
}

pub open spec fn is_felt_type(t: Seq<char>) -> bool {
    t == "felt"@ || t == "felt*"@
}

/// The size of a struct: one past its last field's offset.
pub open spec fn struct_size(members: Seq<(String, Member)>) -> int
    decreases members.len(),
{
    if members.len() == 0 {
        0
    } else {
        let rest = struct_size(members.drop_last());
        let last = members.last().1.offset + 1;
        if last > rest { last } else { rest }
    }
}

/// A type's name with its trailing `*`s taken off.
pub open spec fn strip_pointers(t: Seq<char>) -> Seq<char>
    decreases t.len(),
{
    if t.len() > 0 && t.last() == '*' {
        strip_pointers(t.drop_last())
    } else {
        t
    }
}

/// Whether a struct of the table has `name` as its last path segment, and the
/// first such.
pub open spec fn short_name_index(st: Seq<(String, Vec<(String, Member)>)>, name: Seq<char>, i: int) -> bool {
    &&& 0 <= i < st.len()
    &&& last_path_segment(st[i].0@) == name
    &&& forall|j: int| 0 <= j < i ==> last_path_segment((#[trigger] st[j]).0@) != name
}

pub fn is_felt_type_name(t: &String) -> (r: bool)
    ensures
        r == is_felt_type(t@),
{
    let felt = "felt".to_owned();
    let felt_ptr = "felt*".to_owned();
    *t == felt || *t == felt_ptr
}

pub fn get_struct_size(members: &Vec<(String, Member)>) -> (r: Option<usize>)
    ensures
        r is Some <==> struct_size(members@) <= usize::MAX,
        r matches Some(n) ==> n == struct_size(members@),
{
    let mut size: usize = 0;
    let mut i: usize = 0;
    while i < members.len()
        invariant
            i <= members@.len(),
            size == struct_size(members@.take(i as int)),
        decreases members.len() - i,
    {
        assert(members@.take(i + 1).drop_last() =~= members@.take(i as int));
        let off = members[i].1.offset;
        if off == usize::MAX {
            proof {
                lemma_struct_size_grows(members@, i as int + 1);
            }
            return None;
        }
        if off + 1 > size {
            size = off + 1;
        }
        i = i + 1;
    }
    assert(members@.take(i as int) =~= members@);
    Some(size)
}

pub proof fn lemma_struct_size_grows(members: Seq<(String, Member)>, k: int)
    requires
        0 <= k <= members.len(),
    ensures
        struct_size(members.take(k)) <= struct_size(members),
    decreases members.len() - k,
{
    if k < members.len() {
        assert(members.drop_last().take(k) =~= members.take(k));
        lemma_struct_size_grows(members.drop_last(), k);
    } else {
        assert(members.take(k) =~= members);
    }
}

pub fn strip_pointer_type(t: &String) -> (r: String)
    ensures
        r@ == strip_pointers(t@),
{
    let s = t.as_str();
    let n = s.unicode_len();
    let mut j: usize = n;
    assert(s@.take(n as int) =~= s@);
    while j > 0 && s.get_char(j - 1) == '*'
        invariant
            j <= n,
            n == s@.len(),
            s@ == t@,
            strip_pointers(s@) == strip_pointers(s@.take(j as int)),
        decreases j,
    {
        assert(s@.take(j as int).drop_last() =~= s@.take(j - 1));
        j = j - 1;
    }
    proof {
        if j > 0 {
            assert(s@.take(j as int).last() == s@[j - 1]);
        }
        assert(s@.subrange(0, j as int) =~= s@.take(j as int));
    }
    s.substring_char(0, j).to_owned()
}

impl PyTypedId {
    /// The field `name` of the struct: its address as `address_`, the value of a
    /// number or pointer field, or a typed view of a struct field.
    pub fn get_attr(&self, name: &String, struct_types: &Vec<(String, Vec<(String, Member)>)>, memory: &PyMemory) -> (r: Result<TypedField, IdsError>)
        ensures
            name@ == "address_"@ ==> (r matches Ok(TypedField::Address(a)) && a == self.hint_value),
            name@ != "address_"@ ==> match frame_get(struct_types@, self.cairo_type@) {
                None => r == Err::<TypedField, IdsError>(IdsError::UnknownStructType),
                Some(members) => match frame_get(members@, name@) {
                    None => r == Err::<TypedField, IdsError>(IdsError::NoSuchAttribute),
                    Some(member) => match shift_by(self.hint_value, member.offset as int) {
                        None => r == Err::<TypedField, IdsError>(IdsError::OffsetOutOfRange),
                        Some(a) => if is_felt_type(member.cairo_type@) {
                            r matches Ok(TypedField::Value(v)) && v == cell_of(memory@, a)
                        } else {
                            r matches Ok(TypedField::Struct(t)) && t.hint_value == a && t.cairo_type@ == member.cairo_type@
                        },
                    },
                },
            },
    {
        let address_name = "address_".to_owned();
        if *name == address_name {
            return Ok(TypedField::Address(self.hint_value));
        }
        let members = match frame_lookup(struct_types, &self.cairo_type) {
            Some(m) => m,
            None => {
                return Err(IdsError::UnknownStructType);
            },
        };
        let member = match frame_lookup(members, name) {
            Some(m) => m,
            None => {
                return Err(IdsError::NoSuchAttribute);
            },
        };
        let addr = match self.hint_value.offset.checked_add(member.offset) {
            Some(o) => PyRelocatable { segment_index: self.hint_value.segment_index, offset: o },
            None => {
                return Err(IdsError::OffsetOutOfRange);
            },
        };
        if is_felt_type_name(&member.cairo_type) {
            Ok(TypedField::Value(memory.get(&addr)))
        } else {
            Ok(TypedField::Struct(PyTypedId { hint_value: addr, cairo_type: member.cairo_type.clone() }))
        }
    }

    /// Writes `val` to the number or pointer field `field_name`.
    pub fn set_attr(
        &self,
        field_name: &String,
        val: PyMaybeRelocatable,
        struct_types: &Vec<(String, Vec<(String, Member)>)>,
        memory: &mut PyMemory,
    ) -> (r: Result<(), IdsError>)
        ensures
            match frame_get(struct_types@, self.cairo_type@) {
                None => r == Err::<(), IdsError>(IdsError::UnknownStructType) && final(memory)@ == old(memory)@,
                Some(members) => match frame_get(members@, field_name@) {
                    None => r == Err::<(), IdsError>(IdsError::NoSuchAttribute) && final(memory)@ == old(memory)@,
                    Some(member) => match shift_by(self.hint_value, member.offset as int) {
                        None => r == Err::<(), IdsError>(IdsError::OffsetOutOfRange) && final(memory)@ == old(memory)@,
                        Some(a) => if is_felt_type(member.cairo_type@) {
                            &&& r is Ok <==> insert_ok(old(memory)@, a, val)
                            &&& r is Ok ==> final(memory)@ == insert_spec(old(memory)@, a, val)
                            &&& r is Err ==> final(memory)@ == old(memory)@
                        } else {
                            r == Err::<(), IdsError>(IdsError::StructAssignment) && final(memory)@ == old(memory)@
                        },
                    },
                },
            },
    {
        let members = match frame_lookup(struct_types, &self.cairo_type) {
            Some(m) => m,
            None => {
                return Err(IdsError::UnknownStructType);
            },
        };
        let member = match frame_lookup(members, field_name) {
            Some(m) => m,
            None => {
                return Err(IdsError::NoSuchAttribute);
            },
        };
        let addr = match self.hint_value.offset.checked_add(member.offset) {
            Some(o) => PyRelocatable { segment_index: self.hint_value.segment_index, offset: o },
            None => {
                return Err(IdsError::OffsetOutOfRange);
            },
        };
        if is_felt_type_name(&member.cairo_type) {
            match memory.insert(&addr, val) {
                Ok(()) => Ok(()),
                Err(e) => Err(IdsError::Memory(e)),
            }
        } else {
            Err(IdsError::StructAssignment)
        }
    }
}

/// The first struct of the table whose path ends in `name`.
pub fn find_struct_by_short_name(st: &Vec<(String, Vec<(String, Member)>)>, name: &String) -> (r: Option<usize>)
    ensures
        r matches Some(i) ==> short_name_index(st@, name@, i as int),
        r is None ==> forall|j: int| 0 <= j < st@.len() ==> last_path_segment((#[trigger] st@[j]).0@) != name@,
{
    let mut i: usize = 0;
    while i < st.len()
        invariant
            i <= st@.len(),
            forall|j: int| 0 <= j < i ==> last_path_segment((#[trigger] st@[j]).0@) != name@,
        decreases st.len() - i,
    {
        let short = const_name(&st[i].0);
        if short == *name {
            return Some(i);
        }
        i = i + 1;
    }
    None
}

/// The variables a hint sees under `ids`: its references, the program's named
/// constants (by their last identifier) and its struct types.
pub struct PyIds {
    pub references: Vec<(String, HintReference)>,
    pub ap_tracking: ApTracking,
    pub constants: Vec<(String, Felt)>,
    pub struct_types: Vec<(String, Vec<(String, Member)>)>,
}

impl PyIds {
    pub fn new(
        references: Vec<(String, HintReference)>,
        ap_tracking: ApTracking,
        constants: &Vec<(String, Felt)>,
        struct_types: Vec<(String, Vec<(String, Member)>)>,
    ) -> (r: PyIds)
        ensures
            r.references == references,
            r.ap_tracking == ap_tracking,
            r.struct_types == struct_types,
            r.constants@.len() == constants@.len(),
            forall|i: int| 0 <= i < r.constants@.len() ==> (#[trigger] r.constants@[i]).0@ == last_path_segment(constants@[i].0@)
                && r.constants@[i].1 == constants@[i].1,
    {
        PyIds { references, ap_tracking, constants: const_path_to_const_name(constants), struct_types }
    }

    /// What `name` gives: a constant; else the size of a struct type of that
    /// short name; else the hint's variable of that name, as a typed view where
    /// its type (or the type it points to) is a struct, or as its value.
    pub fn get_attr(&self, name: &String, memory: &PyMemory, ctx: &PyRunContext) -> (r: Result<IdsValue, IdsError>)
        ensures
            frame_get(self.constants@, name@) matches Some(c) ==> (r matches Ok(IdsValue::Constant(v)) && v == c),
            frame_get(self.constants@, name@) is None && (exists|i: int| short_name_index(self.struct_types@, name@, i)) ==> forall|i: int|
                #[trigger] short_name_index(self.struct_types@, name@, i) ==> if struct_size(self.struct_types@[i].1@) <= usize::MAX {
                    r matches Ok(IdsValue::StructSize(n)) && n == struct_size(self.struct_types@[i].1@)
                } else {
                    r == Err::<IdsValue, IdsError>(IdsError::OffsetOutOfRange)
                },
            frame_get(self.constants@, name@) is None && (forall|i: int| 0 <= i < self.struct_types@.len() ==> last_path_segment(
                (#[trigger] self.struct_types@[i]).0@,
            ) != name@) ==> match frame_get(self.references@, name@) {
                None => r == Err::<IdsValue, IdsError>(IdsError::UnknownIdentifier),
                Some(hr) => {
                    let addr = reference_address(memory@, *ctx, hr, self.ap_tracking);
                    match hr.cairo_type {
                        Some(t) if frame_get(self.struct_types@, t@) is Some => match addr {
                            Some(a) => r matches Ok(IdsValue::Typed(tid)) && tid.hint_value == a && tid.cairo_type@ == t@,
                            None => r == Err::<IdsValue, IdsError>(IdsError::UnknownIdentifier),
                        },
                        Some(t) if frame_get(self.struct_types@, strip_pointers(t@)) is Some => match addr {
                            Some(a) => match cell_of(memory@, a) {
                                Some(PyMaybeRelocatable::RelocatableValue(p)) => r matches Ok(IdsValue::Typed(tid)) && tid.hint_value == p
                                    && tid.cairo_type@ == strip_pointers(t@),
                                _ => r == Err::<IdsValue, IdsError>(IdsError::ExpectedAddress),
                            },
                            None => r == Err::<IdsValue, IdsError>(IdsError::UnknownIdentifier),
                        },
                        _ => match reference_value(memory@, *ctx, hr, self.ap_tracking) {
                            Some(v) => r matches Ok(IdsValue::Value(x)) && x == v,
                            None => r == Err::<IdsValue, IdsError>(IdsError::UnknownIdentifier),
                        },
                    }
                },
            },
    {
        match frame_lookup(&self.constants, name) {
            Some(c) => {
                return Ok(IdsValue::Constant(*c));
            },
            None => {},
        }
        match find_struct_by_short_name(&self.struct_types, name) {
            Some(i) => {
                return match get_struct_size(&self.struct_types[i].1) {
                    Some(n) => Ok(IdsValue::StructSize(n)),
                    None => Err(IdsError::OffsetOutOfRange),
                };
            },
            None => {},
        }
        let hr = match frame_lookup(&self.references, name) {
            Some(h) => h,
            None => {
                return Err(IdsError::UnknownIdentifier);
            },
        };
        match &hr.cairo_type {
            Some(t) => {
                if frame_lookup(&self.struct_types, t).is_some() {
                    return match compute_addr_from_reference(hr, memory, ctx, &self.ap_tracking) {
                        Some(a) => Ok(IdsValue::Typed(PyTypedId { hint_value: a, cairo_type: t.clone() })),
                        None => Err(IdsError::UnknownIdentifier),
                    };
                }
                let clear = strip_pointer_type(t);
                if frame_lookup(&self.struct_types, &clear).is_some() {
                    return match compute_addr_from_reference(hr, memory, ctx, &self.ap_tracking) {
                        Some(a) => match memory.get(&a) {
                            Some(PyMaybeRelocatable::RelocatableValue(p)) => Ok(IdsValue::Typed(PyTypedId { hint_value: p, cairo_type: clear })),
                            _ => Err(IdsError::ExpectedAddress),
                        },
                        None => Err(IdsError::UnknownIdentifier),
                    };
                }
            },
            None => {},
        }
        match get_value_from_reference(memory, ctx, hr, &self.ap_tracking) {
            Some(v) => Ok(IdsValue::Value(v)),
            None => Err(IdsError::UnknownIdentifier),
        }
    }

    /// Writes `val` at the address of the hint's variable `name`.
    pub fn set_attr(&self, name: &String, val: PyMaybeRelocatable, memory: &mut PyMemory, ctx: &PyRunContext) -> (r: Result<(), IdsError>)
        ensures
            match frame_get(self.references@, name@) {
                None => r == Err::<(), IdsError>(IdsError::UnknownIdentifier) && final(memory)@ == old(memory)@,
                Some(hr) => match reference_address(old(memory)@, *ctx, hr, self.ap_tracking) {
                    None => r == Err::<(), IdsError>(IdsError::UnknownIdentifier) && final(memory)@ == old(memory)@,
                    Some(a) => {
                        &&& r is Ok <==> insert_ok(old(memory)@, a, val)
                        &&& r is Ok ==> final(memory)@ == insert_spec(old(memory)@, a, val)
                        &&& r is Err ==> final(memory)@ == old(memory)@
                    },
                },
            },
    {
        let hr = match frame_lookup(&self.references, name) {
            Some(h) => h,
            None => {
                return Err(IdsError::UnknownIdentifier);
            },
        };
        match compute_addr_from_reference(hr, memory, ctx, &self.ap_tracking) {
            Some(a) => match memory.insert(&a, val) {
                Ok(()) => Ok(()),
                Err(e) => Err(IdsError::Memory(e)),
            },
            None => Err(IdsError::UnknownIdentifier),
        }
    }
}

} // verus!
