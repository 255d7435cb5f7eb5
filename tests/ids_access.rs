use cairo_rs_py::felt::Felt;
use cairo_rs_py::ids::{
    compute_addr_from_reference, get_value_from_reference, offset_address, ApTracking, HintReference, IdsError,
    IdsValue, Member, OffsetValue, PyIds, PyTypedId, Register, TypedField,
};
use cairo_rs_py::memory::PyMemory;
use cairo_rs_py::relocatable::{PyMaybeRelocatable, PyRelocatable};
use cairo_rs_py::run_context::PyRunContext;

fn rel(s: isize, o: usize) -> PyRelocatable {
    PyRelocatable::new((s, o))
}

fn num(v: u64) -> PyMaybeRelocatable {
    PyMaybeRelocatable::Int(Felt::from_u64(v))
}

fn s(x: &str) -> String {
    x.to_string()
}

fn fp_ref(off: i32, deref: bool, cairo_type: Option<&str>) -> HintReference {
    HintReference {
        offset1: OffsetValue::Reference(Register::FP, off, false),
        offset2: OffsetValue::Value(0),
        dereference: deref,
        ap_tracking_data: None,
        cairo_type: cairo_type.map(s),
    }
}

fn setup() -> (PyMemory, PyRunContext) {
    let mut m = PyMemory::new();
    m.add_segment();
    m.add_segment();
    m.load_data(&rel(1, 0), &vec![num(10), num(20), num(30), PyMaybeRelocatable::RelocatableValue(rel(1, 1))])
        .unwrap();
    (m, PyRunContext::new(rel(0, 0), rel(1, 4), rel(1, 2)))
}

fn point_types() -> Vec<(String, Vec<(String, Member)>)> {
    vec![(
        s("__main__.Point"),
        vec![
            (s("x"), Member { cairo_type: s("felt"), offset: 0 }),
            (s("y"), Member { cairo_type: s("felt"), offset: 1 }),
        ],
    )]
}

#[test]
fn offsets_stay_in_range() {
    assert_eq!(offset_address(rel(1, 2), -2), Some(rel(1, 0)));
    assert_eq!(offset_address(rel(1, 2), -3), None);
    assert_eq!(offset_address(rel(1, 2), 5), Some(rel(1, 7)));
}

#[test]
fn references_resolve_through_registers() {
    let (m, ctx) = setup();
    let tracking = ApTracking { group: 0, offset: 0 };
    let r = fp_ref(-1, true, None);
    assert_eq!(compute_addr_from_reference(&r, &m, &ctx, &tracking), Some(rel(1, 1)));
    assert_eq!(get_value_from_reference(&m, &ctx, &r, &tracking), Some(num(20)));
    let ap_ref = HintReference {
        offset1: OffsetValue::Reference(Register::AP, -1, false),
        offset2: OffsetValue::Value(0),
        dereference: true,
        ap_tracking_data: Some(ApTracking { group: 0, offset: 1 }),
        cairo_type: None,
    };
    // The hint runs two cells of `ap` after the reference was made.
    let hint_tracking = ApTracking { group: 0, offset: 3 };
    assert_eq!(compute_addr_from_reference(&ap_ref, &m, &ctx, &hint_tracking), Some(rel(1, 1)));
    let other_group = ApTracking { group: 1, offset: 3 };
    assert_eq!(compute_addr_from_reference(&ap_ref, &m, &ctx, &other_group), None);
    let immediate = HintReference {
        offset1: OffsetValue::Immediate(Felt::from_u64(9)),
        offset2: OffsetValue::Value(0),
        dereference: false,
        ap_tracking_data: None,
        cairo_type: None,
    };
    assert_eq!(get_value_from_reference(&m, &ctx, &immediate, &tracking), Some(num(9)));
}

#[test]
fn ids_constants_sizes_and_values() {
    let (m, ctx) = setup();
    let ids = PyIds::new(
        vec![(s("a"), fp_ref(0, true, None)), (s("p"), fp_ref(-2, true, Some("__main__.Point"))), (s("pp"), fp_ref(1, true, Some("__main__.Point*")))],
        ApTracking { group: 0, offset: 0 },
        &vec![(s("__main__.LIMIT"), Felt::from_u64(100))],
        point_types(),
    );
    assert!(matches!(ids.get_attr(&s("LIMIT"), &m, &ctx), Ok(IdsValue::Constant(c)) if c == Felt::from_u64(100)));
    assert!(matches!(ids.get_attr(&s("Point"), &m, &ctx), Ok(IdsValue::StructSize(2))));
    assert!(matches!(ids.get_attr(&s("a"), &m, &ctx), Ok(IdsValue::Value(v)) if v == num(30)));
    match ids.get_attr(&s("p"), &m, &ctx) {
        Ok(IdsValue::Typed(t)) => {
            assert_eq!(t.hint_value, rel(1, 0));
            assert_eq!(t.cairo_type, "__main__.Point");
        }
        other => panic!("unexpected {other:?}"),
    }
    match ids.get_attr(&s("pp"), &m, &ctx) {
        Ok(IdsValue::Typed(t)) => {
            assert_eq!(t.hint_value, rel(1, 1));
            assert_eq!(t.cairo_type, "__main__.Point");
        }
        other => panic!("unexpected {other:?}"),
    }
    assert!(matches!(ids.get_attr(&s("missing"), &m, &ctx), Err(IdsError::UnknownIdentifier)));
}

#[test]
fn ids_set_attr_writes_once() {
    let (mut m, ctx) = setup();
    let ids = PyIds::new(vec![(s("z"), fp_ref(3, false, None))], ApTracking { group: 0, offset: 0 }, &vec![], vec![]);
    assert_eq!(ids.set_attr(&s("z"), num(5), &mut m, &ctx), Ok(()));
    assert_eq!(m.get(&rel(1, 5)), Some(num(5)));
    assert!(matches!(ids.set_attr(&s("z"), num(6), &mut m, &ctx), Err(IdsError::Memory(_))));
    assert_eq!(ids.set_attr(&s("nope"), num(6), &mut m, &ctx), Err(IdsError::UnknownIdentifier));
}

#[test]
fn typed_fields() {
    let (mut m, _) = setup();
    let types = point_types();
    let t = PyTypedId { hint_value: rel(1, 1), cairo_type: s("__main__.Point") };
    assert!(matches!(t.get_attr(&s("address_"), &types, &m), Ok(TypedField::Address(a)) if a == rel(1, 1)));
    assert!(matches!(t.get_attr(&s("y"), &types, &m), Ok(TypedField::Value(Some(v))) if v == num(30)));
    assert!(matches!(t.get_attr(&s("w"), &types, &m), Err(IdsError::NoSuchAttribute)));
    let far = PyTypedId { hint_value: rel(1, 5), cairo_type: s("__main__.Point") };
    assert!(matches!(far.get_attr(&s("x"), &types, &m), Ok(TypedField::Value(None))));
    assert_eq!(far.set_attr(&s("x"), num(1), &types, &mut m), Ok(()));
    assert_eq!(m.get(&rel(1, 5)), Some(num(1)));
    let unknown = PyTypedId { hint_value: rel(1, 0), cairo_type: s("Nope") };
    assert!(matches!(unknown.get_attr(&s("x"), &types, &m), Err(IdsError::UnknownStructType)));
}

fn new_simple(offset1: i32) -> HintReference {
    HintReference {
        offset1: OffsetValue::Reference(Register::FP, offset1, false),
        offset2: OffsetValue::Value(0),
        dereference: true,
        ap_tracking_data: None,
        cairo_type: None,
    }
}

fn ids_value(v: Result<IdsValue, IdsError>) -> PyMaybeRelocatable {
    match v {
        Ok(IdsValue::Value(x)) => x,
        Ok(IdsValue::Constant(c)) => PyMaybeRelocatable::Int(c),
        other => panic!("unexpected {other:?}"),
    }
}

fn fresh_vm() -> cairo_rs_py::vm_core::PyVM {
    let mut vm = cairo_rs_py::vm_core::PyVM::new(false);
    for _ in 0..2 {
        vm.add_memory_segment();
    }
    vm
}

#[test]
fn ids_get_test() {
    let mut vm = fresh_vm();
    let references = vec![(s("a"), new_simple(1))];
    let constants = vec![(s("CONST"), Felt::from_u64(3))];
    vm.insert_value(&rel(1, 1), num(2)).unwrap();
    let fp = rel(1, 0);
    let ids = PyIds::new(references, ApTracking { group: 0, offset: 0 }, &constants, vec![]);
    let ctx = vm.run_context();
    // memory[fp] = ids.a
    let a = ids_value(ids.get_attr(&s("a"), &vm.memory, &ctx));
    vm.insert_value(&fp, a).unwrap();
    // memory[fp+2] = ids.CONST
    let c = ids_value(ids.get_attr(&s("CONST"), &vm.memory, &ctx));
    vm.insert_value(&fp.add(2).unwrap(), c).unwrap();
    assert_eq!(vm.get_maybe(&rel(1, 0)), Some(num(2)));
    assert_eq!(vm.get_maybe(&rel(1, 2)), Some(num(3)));
}

#[test]
fn ids_ap_tracked_ref() {
    let mut vm = fresh_vm();
    let references = vec![
        (
            s("ok_ref"),
            HintReference {
                offset1: OffsetValue::Reference(Register::FP, 0, false),
                offset2: OffsetValue::Value(0),
                dereference: true,
                ap_tracking_data: Some(ApTracking { group: 0, offset: 0 }),
                cairo_type: None,
            },
        ),
        (
            s("bad_ref"),
            HintReference {
                offset1: OffsetValue::Reference(Register::AP, 0, false),
                offset2: OffsetValue::Value(0),
                dereference: true,
                ap_tracking_data: Some(ApTracking { group: 1, offset: 0 }),
                cairo_type: None,
            },
        ),
        (
            s("none_ref"),
            HintReference {
                offset1: OffsetValue::Reference(Register::AP, 0, false),
                offset2: OffsetValue::Value(0),
                dereference: true,
                ap_tracking_data: None,
                cairo_type: None,
            },
        ),
    ];
    let fp = rel(1, 0);
    let ids = PyIds::new(references, ApTracking { group: 0, offset: 0 }, &vec![], vec![]);
    let ctx = vm.run_context();
    // ids.ok_ref = 5; memory[fp] = ids.ok_ref
    ids.set_attr(&s("ok_ref"), num(5), &mut vm.memory, &ctx).unwrap();
    let v = ids_value(ids.get_attr(&s("ok_ref"), &vm.memory, &ctx));
    vm.insert_value(&fp, v).unwrap();
    assert_eq!(vm.get_maybe(&rel(1, 0)), Some(num(5)));
    assert!(matches!(ids.get_attr(&s("bad_ref"), &vm.memory, &ctx), Err(IdsError::UnknownIdentifier)));
    assert!(matches!(ids.get_attr(&s("none_ref"), &vm.memory, &ctx), Err(IdsError::UnknownIdentifier)));
}

#[test]
fn ids_no_register_ref() {
    let mut vm = fresh_vm();
    let imm = 89;
    let references = vec![
        (
            s("imm_ref"),
            HintReference {
                offset1: OffsetValue::Immediate(Felt::from_u64(imm)),
                offset2: OffsetValue::Immediate(Felt::from_u64(0)),
                dereference: true,
                ap_tracking_data: None,
                cairo_type: None,
            },
        ),
        (
            s("no_reg_ref"),
            HintReference {
                offset1: OffsetValue::Value(0),
                offset2: OffsetValue::Value(0),
                dereference: true,
                ap_tracking_data: None,
                cairo_type: None,
            },
        ),
    ];
    let fp = rel(1, 0);
    let ids = PyIds::new(references, ApTracking { group: 0, offset: 0 }, &vec![], vec![]);
    let ctx = vm.run_context();
    // memory[fp] = ids.imm_ref
    let v = ids_value(ids.get_attr(&s("imm_ref"), &vm.memory, &ctx));
    vm.insert_value(&fp, v).unwrap();
    assert_eq!(vm.get_maybe(&rel(1, 0)), Some(num(imm)));
    assert!(matches!(ids.get_attr(&s("no_reg_ref"), &vm.memory, &ctx), Err(IdsError::UnknownIdentifier)));
}

#[test]
fn ids_reference_with_immediate() {
    let mut vm = fresh_vm();
    let imm_offset = 5;
    let reference = || HintReference {
        offset1: OffsetValue::Reference(Register::FP, imm_offset, false),
        offset2: OffsetValue::Value(0),
        dereference: false,
        ap_tracking_data: None,
        cairo_type: None,
    };
    let references = vec![(s("inner_imm_ref"), reference()), (s("imm_ref"), reference())];
    let relocatable = rel(1, 0);
    vm.insert_value(&rel(1, 0), PyMaybeRelocatable::RelocatableValue(relocatable)).unwrap();
    let fp = rel(1, 5);
    let ids = PyIds::new(references, ApTracking { group: 0, offset: 0 }, &vec![], vec![]);
    let ctx = vm.run_context();
    // assert ids.inner_imm_ref == ids.imm_ref
    let inner = ids_value(ids.get_attr(&s("inner_imm_ref"), &vm.memory, &ctx));
    let outer = ids_value(ids.get_attr(&s("imm_ref"), &vm.memory, &ctx));
    assert_eq!(inner, outer);
    // memory[fp] = ids.inner_imm_ref
    vm.insert_value(&fp, inner).unwrap();
    assert_eq!(
        vm.get_maybe(&rel(1, 5)),
        Some(PyMaybeRelocatable::RelocatableValue(relocatable.add(imm_offset as usize).unwrap()))
    );
}

fn create_simple_struct_type() -> (String, Vec<(String, Member)>) {
    (
        s("SimpleStruct"),
        vec![
            (s("x"), Member { cairo_type: s("felt"), offset: 0 }),
            (s("ptr"), Member { cairo_type: s("felt*"), offset: 1 }),
        ],
    )
}

fn typed(v: Result<IdsValue, IdsError>) -> PyTypedId {
    match v {
        Ok(IdsValue::Typed(t)) => t,
        other => panic!("unexpected {other:?}"),
    }
}

fn field_value(v: Result<TypedField, IdsError>) -> PyMaybeRelocatable {
    match v {
        Ok(TypedField::Value(Some(x))) => x,
        Ok(TypedField::Address(a)) => PyMaybeRelocatable::RelocatableValue(a),
        other => panic!("unexpected {other:?}"),
    }
}

fn struct_ref(name: &str, cairo_type: &str) -> (String, HintReference) {
    (
        s(name),
        HintReference {
            offset1: OffsetValue::Reference(Register::FP, 0, false),
            offset2: OffsetValue::Value(0),
            dereference: true,
            ap_tracking_data: None,
            cairo_type: Some(s(cairo_type)),
        },
    )
}

#[test]
fn ids_get_simple_struct() {
    let mut vm = fresh_vm();
    let references = vec![struct_ref("a", "SimpleStruct")];
    let struct_types = vec![create_simple_struct_type()];
    vm.insert_value(&rel(1, 0), num(55)).unwrap();
    vm.insert_value(&rel(1, 1), PyMaybeRelocatable::RelocatableValue(rel(1, 0))).unwrap();
    let fp = rel(1, 0);
    let ids = PyIds::new(references, ApTracking { group: 0, offset: 0 }, &vec![], struct_types);
    let ctx = vm.run_context();
    let a = typed(ids.get_attr(&s("a"), &vm.memory, &ctx));
    // memory[fp] = ids.a.x
    let x = field_value(a.get_attr(&s("x"), &ids.struct_types, &vm.memory));
    vm.insert_value(&fp, x).unwrap();
    // memory[fp + 1] = ids.a.ptr
    let ptr = field_value(a.get_attr(&s("ptr"), &ids.struct_types, &vm.memory));
    vm.insert_value(&fp.add(1).unwrap(), ptr).unwrap();
    // memory[fp + 2] = ids.SimpleStruct.SIZE
    match ids.get_attr(&s("SimpleStruct"), &vm.memory, &ctx) {
        Ok(IdsValue::StructSize(n)) => vm.insert_value(&fp.add(2).unwrap(), num(n as u64)).unwrap(),
        other => panic!("unexpected {other:?}"),
    }
    assert_eq!(vm.get_maybe(&rel(1, 0)), Some(num(55)));
    assert_eq!(vm.get_maybe(&rel(1, 1)), Some(PyMaybeRelocatable::RelocatableValue(rel(1, 0))));
    assert_eq!(vm.get_maybe(&rel(1, 2)), Some(num(2)));
    // ids.a.y does not exist
    assert!(a.get_attr(&s("y"), &ids.struct_types, &vm.memory).is_err());
}

#[test]
fn ids_get_nested_struct() {
    let mut vm = fresh_vm();
    let references = vec![struct_ref("ns", "NestedStruct")];
    let struct_types = vec![
        (s("Struct"), vec![]),
        (
            s("NestedStruct"),
            vec![
                (s("x"), Member { cairo_type: s("felt"), offset: 0 }),
                (s("struct"), Member { cairo_type: s("Struct"), offset: 1 }),
            ],
        ),
    ];
    vm.insert_value(&rel(1, 0), num(55)).unwrap();
    vm.insert_value(&rel(1, 1), PyMaybeRelocatable::RelocatableValue(rel(1, 0))).unwrap();
    let fp = rel(1, 3);
    let ids = PyIds::new(references, ApTracking { group: 0, offset: 0 }, &vec![], struct_types);
    let ctx = vm.run_context();
    // memory[fp] = ids.Struct.SIZE
    match ids.get_attr(&s("Struct"), &vm.memory, &ctx) {
        Ok(IdsValue::StructSize(n)) => vm.insert_value(&fp, num(n as u64)).unwrap(),
        other => panic!("unexpected {other:?}"),
    }
    // memory[fp + 1] = ids.ns.struct.address_
    let ns = typed(ids.get_attr(&s("ns"), &vm.memory, &ctx));
    let inner = match ns.get_attr(&s("struct"), &ids.struct_types, &vm.memory) {
        Ok(TypedField::Struct(t)) => t,
        other => panic!("unexpected {other:?}"),
    };
    let address = field_value(inner.get_attr(&s("address_"), &ids.struct_types, &vm.memory));
    vm.insert_value(&fp.add(1).unwrap(), address).unwrap();
    assert_eq!(vm.get_maybe(&rel(1, 3)), Some(num(0)));
    assert_eq!(vm.get_maybe(&rel(1, 4)), Some(PyMaybeRelocatable::RelocatableValue(rel(1, 1))));
}

#[test]
fn ids_get_from_pointer() {
    let mut vm = cairo_rs_py::vm_core::PyVM::new(false);
    for _ in 0..3 {
        vm.add_memory_segment();
    }
    let references = vec![
        struct_ref("ssp", "SimpleStruct*"),
        (
            s("ssp_x_ptr"),
            HintReference {
                offset1: OffsetValue::Reference(Register::FP, 0, true),
                offset2: OffsetValue::Value(0),
                dereference: true,
                ap_tracking_data: None,
                cairo_type: None,
            },
        ),
    ];
    vm.insert_value(&rel(1, 0), PyMaybeRelocatable::RelocatableValue(rel(2, 0))).unwrap();
    let struct_types = vec![create_simple_struct_type()];
    let ids = PyIds::new(references, ApTracking { group: 0, offset: 0 }, &vec![], struct_types);
    let ctx = vm.run_context();
    // ids.ssp.x = 5
    let ssp = typed(ids.get_attr(&s("ssp"), &vm.memory, &ctx));
    ssp.set_attr(&s("x"), num(5), &ids.struct_types, &mut vm.memory).unwrap();
    // assert ids.ssp.x == 5
    assert_eq!(field_value(ssp.get_attr(&s("x"), &ids.struct_types, &vm.memory)), num(5));
    // assert ids.ssp_x_ptr == 5
    assert_eq!(ids_value(ids.get_attr(&s("ssp_x_ptr"), &vm.memory, &ctx)), num(5));
}

#[test]
fn ids_failed_get_test() {
    let vm = fresh_vm();
    let ids = PyIds::new(vec![], ApTracking { group: 0, offset: 0 }, &vec![], vec![]);
    let ctx = vm.run_context();
    // memory[fp] = ids.b
    assert!(matches!(ids.get_attr(&s("b"), &vm.memory, &ctx), Err(IdsError::UnknownIdentifier)));
}

#[test]
fn ids_set_test() {
    let mut vm = fresh_vm();
    let references = vec![(s("a"), new_simple(1))];
    let constants = vec![(s("CONST"), Felt::from_u64(3))];
    vm.insert_value(&rel(1, 0), num(2)).unwrap();
    let fp = rel(1, 0);
    let ids = PyIds::new(references, ApTracking { group: 0, offset: 0 }, &constants, vec![]);
    let ctx = vm.run_context();
    // ids.a = memory[fp]
    let v = vm.get_maybe(&fp).unwrap();
    assert!(ids.set_attr(&s("a"), v, &mut vm.memory, &ctx).is_ok());
    assert_eq!(vm.get_maybe(&rel(1, 1)), Some(num(2)));
    // ids.b does not exist
    assert_eq!(ids.set_attr(&s("b"), v, &mut vm.memory, &ctx), Err(IdsError::UnknownIdentifier));
}

#[test]
fn ids_set_struct_attribute() {
    let mut vm = fresh_vm();
    let references = vec![
        struct_ref("struct", "SimpleStruct"),
        (
            s("fp"),
            HintReference {
                offset1: OffsetValue::Reference(Register::FP, 0, false),
                offset2: OffsetValue::Value(0),
                dereference: false,
                ap_tracking_data: None,
                cairo_type: None,
            },
        ),
    ];
    let struct_types = vec![create_simple_struct_type()];
    let ids = PyIds::new(references, ApTracking { group: 0, offset: 0 }, &vec![], struct_types);
    let ctx = vm.run_context();
    let st = typed(ids.get_attr(&s("struct"), &vm.memory, &ctx));
    // ids.struct.x = 5
    st.set_attr(&s("x"), num(5), &ids.struct_types, &mut vm.memory).unwrap();
    // ids.struct.ptr = ids.fp
    let fp_value = ids_value(ids.get_attr(&s("fp"), &vm.memory, &ctx));
    st.set_attr(&s("ptr"), fp_value, &ids.struct_types, &mut vm.memory).unwrap();
    assert_eq!(vm.get_maybe(&rel(1, 0)), Some(num(5)));
    assert_eq!(vm.get_maybe(&rel(1, 1)), Some(PyMaybeRelocatable::RelocatableValue(vm.get_fp())));
    // ids.struct.y does not exist
    assert!(st.set_attr(&s("y"), num(10), &ids.struct_types, &mut vm.memory).is_err());
}
