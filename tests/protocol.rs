use seqproto::error::{ErrorKind, PyError, PyResult};
use seqproto::object::{
    ClassKind, MethodsCow, PyClass, PyMappingMethods, PyObject, PySequenceMethods, SlotFn,
    TypeSlots,
};
use seqproto::sequence::{
    collect_items, contains_by_iteration, BinaryOp, Operand, PyArithmeticValue,
    PySequence, PySlice, SeqAction, TupleAction,
};

fn slot(id: u64) -> Option<SlotFn> {
    Some(SlotFn { id })
}

fn empty() -> PySequenceMethods {
    PySequenceMethods::not_implemented()
}

fn class(name: &str, kind: ClassKind, mro: Vec<TypeSlots>) -> PyClass {
    PyClass { name: name.to_string(), kind, mro }
}

fn own(seq: Option<PySequenceMethods>, map: Option<PyMappingMethods>) -> TypeSlots {
    TypeSlots { as_sequence: seq, as_mapping: map }
}

fn object(id: u64, class: PyClass) -> PyObject {
    PyObject { id, class, items: vec![] }
}

fn item_only() -> PySequenceMethods {
    PySequenceMethods { item: slot(4), ..empty() }
}

fn full() -> PySequenceMethods {
    PySequenceMethods {
        length: slot(1),
        concat: slot(2),
        repeat: slot(3),
        item: slot(4),
        ass_item: slot(5),
        contains: slot(6),
        inplace_concat: slot(7),
        inplace_repeat: slot(8),
    }
}

fn plain(name: &str, table: Option<PySequenceMethods>) -> PyObject {
    object(10, class(name, ClassKind::Other, vec![own(table, None)]))
}

fn fail_msg(a: &SeqAction) -> (ErrorKind, String) {
    match a {
        SeqAction::Fail(e) => (e.kind, e.msg.clone()),
        other => panic!("expected a failure, got {:?}", other),
    }
}

fn err(msg: &str) -> PyError {
    PyError { kind: ErrorKind::TypeError, msg: msg.to_string() }
}

fn eqs(xs: &[bool]) -> Vec<PyResult<bool>> {
    xs.iter().map(|b| Ok(*b)).collect()
}

fn matches_of(xs: &[char], target: char) -> Vec<PyResult<bool>> {
    xs.iter().map(|c| Ok(*c == target)).collect()
}

#[test]
fn item_only_type_has_protocol_but_no_length() {
    let obj = plain("Idx", Some(item_only()));
    let s = PySequence::new(&obj);
    assert!(s.has_protocol());
    assert!(s.try_protocol().is_ok());
    assert_eq!(
        fail_msg(&s.length()),
        (ErrorKind::TypeError, "'Idx' is not a sequence or has no len()".to_string())
    );
    assert!(matches!(s.get_item(0), SeqAction::Native(SlotFn { id: 4 })));
}

#[test]
fn no_slots_everything_fails() {
    let obj = plain("Thing", None);
    let other = plain("Idx", Some(item_only()));
    let s = PySequence::new(&obj);
    assert!(!s.has_protocol());
    let e = s.try_protocol().unwrap_err();
    assert_eq!(e.kind, ErrorKind::TypeError);
    assert_eq!(e.msg, "'Thing' is not a sequence");
    assert_eq!(fail_msg(&s.length()).1, "'Thing' is not a sequence or has no len()");
    assert_eq!(fail_msg(&s.concat(&other)).1, "'Thing' object can't be concatenated");
    assert_eq!(fail_msg(&s.inplace_concat(&other)).1, "'Thing' object can't be concatenated");
    assert_eq!(fail_msg(&s.repeat(3)).1, "'Thing' object can't be repeated");
    assert_eq!(fail_msg(&s.inplace_repeat(3)).1, "'Thing' object can't be repeated");
    assert_eq!(
        fail_msg(&s.get_item(0)).1,
        "'Thing' is not a sequence or does not support indexing"
    );
    assert_eq!(fail_msg(&s.get_slice(0, 1)).1, "'Thing' object is unsliceable");
    assert!(matches!(s.contains(), SeqAction::Iterate));
}

#[test]
fn operator_fallback_needs_both_sequences() {
    let a = plain("A", Some(item_only()));
    let b = plain("B", Some(item_only()));
    let c = object(11, class("C", ClassKind::Other, vec![]));
    let s = PySequence::new(&a);
    assert!(matches!(
        s.concat(&b),
        SeqAction::Operator(BinaryOp::Add, Operand::Object(10))
    ));
    assert_eq!(fail_msg(&s.concat(&c)).1, "'A' object can't be concatenated");
    assert!(matches!(
        s.inplace_concat(&b),
        SeqAction::Operator(BinaryOp::InplaceAdd, Operand::Object(10))
    ));
    assert!(matches!(s.repeat(5), SeqAction::Operator(BinaryOp::Mul, Operand::Count(5))));
    assert!(matches!(
        s.inplace_repeat(5),
        SeqAction::Operator(BinaryOp::InplaceMul, Operand::Count(5))
    ));
}

#[test]
fn finish_operator_outcomes() {
    let a = plain("A", Some(item_only()));
    let s = PySequence::new(&a);
    assert_eq!(
        s.finish_operator(BinaryOp::Add, Ok(PyArithmeticValue::Implemented(42))).unwrap(),
        42
    );
    let e = s.finish_operator(BinaryOp::Add, Ok(PyArithmeticValue::NotImplemented)).unwrap_err();
    assert_eq!(e.msg, "'A' object can't be concatenated");
    let e = s
        .finish_operator(BinaryOp::InplaceMul, Ok(PyArithmeticValue::NotImplemented))
        .unwrap_err();
    assert_eq!(e.msg, "'A' object can't be repeated");
    let e = s.finish_operator(BinaryOp::Mul, Err(err("boom"))).unwrap_err();
    assert_eq!(e.msg, "boom");
}

#[test]
fn native_slots_come_first() {
    let obj = plain("Full", Some(full()));
    let other = plain("Other", None);
    let s = PySequence::new(&obj);
    assert!(matches!(s.length(), SeqAction::Native(SlotFn { id: 1 })));
    assert!(matches!(s.concat(&other), SeqAction::Native(SlotFn { id: 2 })));
    assert!(matches!(s.repeat(2), SeqAction::Native(SlotFn { id: 3 })));
    assert!(matches!(s.set_item(0, 9), SeqAction::Native(SlotFn { id: 5 })));
    assert!(matches!(s.del_item(0), SeqAction::Native(SlotFn { id: 5 })));
    assert!(matches!(s.contains(), SeqAction::Native(SlotFn { id: 6 })));
    assert!(matches!(s.inplace_concat(&other), SeqAction::Native(SlotFn { id: 7 })));
    assert!(matches!(s.inplace_repeat(2), SeqAction::Native(SlotFn { id: 8 })));
}

#[test]
fn inplace_falls_back_to_plain_slots() {
    let t = PySequenceMethods { concat: slot(2), repeat: slot(3), ..empty() };
    let obj = plain("Half", Some(t));
    let other = plain("Other", None);
    let s = PySequence::new(&obj);
    assert!(matches!(s.inplace_concat(&other), SeqAction::Native(SlotFn { id: 2 })));
    assert!(matches!(s.inplace_repeat(2), SeqAction::Native(SlotFn { id: 3 })));
}

#[test]
fn resolution_takes_nearest_ancestor() {
    let base = PySequenceMethods { length: slot(20), ..item_only() };
    let mid = PySequenceMethods { length: slot(30), ..item_only() };
    let obj = object(
        1,
        class("Leaf", ClassKind::Other, vec![own(None, None), own(Some(mid), None), own(Some(base), None)]),
    );
    let s = PySequence::new(&obj);
    assert!(matches!(s.length(), SeqAction::Native(SlotFn { id: 30 })));
}

#[test]
fn dict_never_resolves_a_table() {
    let obj = object(1, class("dict", ClassKind::Dict, vec![own(Some(full()), None)]));
    let s = PySequence::new(&obj);
    assert!(!s.has_protocol());
    assert!(matches!(s.methods_cow(), MethodsCow::NotImplemented));
    assert!(s.methods().length.is_none());
}

#[test]
fn caller_supplied_table_is_used() {
    let obj = plain("Thing", None);
    let s = PySequence::with_methods(&obj, MethodsCow::Owned(item_only()));
    assert!(s.has_protocol());
    let n = PySequence::with_methods(&obj, MethodsCow::NotImplemented);
    assert!(!n.has_protocol());
    assert!(n.methods().item.is_none());
}

#[test]
fn index_finds_position() {
    let obj = plain("Iter", None);
    let s = PySequence::new(&obj);
    let abc = ['a', 'b', 'c'];
    assert_eq!(s.index(&matches_of(&abc, 'b')).unwrap(), 1);
    let e = s.index(&matches_of(&abc, 'z')).unwrap_err();
    assert_eq!(e.kind, ErrorKind::ValueError);
    assert_eq!(e.msg, "sequence.index(x): x not in sequence");
}

#[test]
fn count_counts_matches() {
    let obj = plain("Iter", None);
    let s = PySequence::new(&obj);
    let xs = ['a', 'b', 'a', 'c', 'a'];
    assert_eq!(s.count(&matches_of(&xs, 'a')).unwrap(), 3);
    assert_eq!(s.count(&matches_of(&xs, 'z')).unwrap(), 0);
    assert_eq!(s.count(&vec![]).unwrap(), 0);
}

#[test]
fn count_and_index_ignore_native_contains() {
    // the native slot would claim membership; iteration finds no match
    let t = PySequenceMethods { contains: slot(6), ..item_only() };
    let obj = plain("Liar", Some(t));
    let s = PySequence::new(&obj);
    assert!(matches!(s.contains(), SeqAction::Native(SlotFn { id: 6 })));
    let none = eqs(&[false, false]);
    assert_eq!(s.count(&none).unwrap(), 0);
    assert_eq!(s.index(&none).unwrap_err().kind, ErrorKind::ValueError);
}

#[test]
fn scans_stop_at_errors() {
    let obj = plain("Iter", None);
    let s = PySequence::new(&obj);
    let xs: Vec<PyResult<bool>> = vec![Ok(false), Err(err("bad eq")), Ok(true)];
    assert_eq!(s.count(&xs).unwrap_err().msg, "bad eq");
    assert_eq!(s.index(&xs).unwrap_err().msg, "bad eq");
    assert_eq!(contains_by_iteration(&xs).unwrap_err().msg, "bad eq");
    let ys: Vec<PyResult<bool>> = vec![Ok(true), Err(err("late"))];
    assert_eq!(s.index(&ys).unwrap(), 0);
    assert!(contains_by_iteration(&ys).unwrap());
    assert_eq!(s.count(&ys).unwrap_err().msg, "late");
    assert!(!contains_by_iteration(&eqs(&[false, false])).unwrap());
    assert!(!contains_by_iteration(&vec![]).unwrap());
}

#[test]
fn tuple_coercion_paths() {
    let t = object(1, class("tuple", ClassKind::Tuple, vec![own(Some(item_only()), None)]));
    assert!(matches!(PySequence::new(&t).tuple(), TupleAction::Same));
    let mut l = object(2, class("list", ClassKind::List, vec![own(Some(full()), None)]));
    l.items = vec![7, 8, 9];
    match PySequence::new(&l).tuple() {
        TupleAction::Copy(v) => assert_eq!(v, vec![7, 8, 9]),
        other => panic!("expected a copy, got {:?}", other),
    }
    let g = plain("Gen", None);
    assert!(matches!(PySequence::new(&g).tuple(), TupleAction::Iterate));
    assert_eq!(collect_items(vec![Ok(3), Ok(4)]).unwrap(), vec![3, 4]);
}

#[test]
fn list_collects_iteration() {
    let g = plain("Gen", None);
    let s = PySequence::new(&g);
    assert_eq!(s.list(vec![Ok(1), Ok(2), Ok(3)]).unwrap(), vec![1, 2, 3]);
    assert_eq!(s.list(vec![]).unwrap(), Vec::<u64>::new());
    let e = s.list(vec![Ok(1), Err(err("stop")), Err(err("later"))]).unwrap_err();
    assert_eq!(e.msg, "stop");
}

#[test]
fn assignment_and_deletion_messages() {
    let obj = plain("RO", Some(item_only()));
    let s = PySequence::new(&obj);
    assert_eq!(
        fail_msg(&s.set_item(0, 5)),
        (ErrorKind::TypeError, "'RO' is not a sequence or doesn't support item assignment".to_string())
    );
    assert_eq!(
        fail_msg(&s.del_item(0)),
        (ErrorKind::TypeError, "'RO' is not a sequence or doesn't support item deletion".to_string())
    );
    assert_eq!(
        fail_msg(&s.set_slice(0, 1, 5)).1,
        "'RO' object doesn't support slice assignment"
    );
    assert_eq!(fail_msg(&s.del_slice(0, 1)).1, "'RO' object doesn't support slice deletion");
}

#[test]
fn slices_use_mapping_subscript() {
    let map = PyMappingMethods { subscript: slot(40), ass_subscript: slot(41) };
    let obj = object(
        3,
        class("Both", ClassKind::Other, vec![own(Some(full()), None), own(None, Some(map))]),
    );
    let s = PySequence::new(&obj);
    assert!(matches!(
        s.get_slice(1, 4),
        SeqAction::Subscript(SlotFn { id: 40 }, PySlice { start: 1, stop: 4 })
    ));
    assert!(matches!(
        s.set_slice(-2, 3, 8),
        SeqAction::Subscript(SlotFn { id: 41 }, PySlice { start: -2, stop: 3 })
    ));
    assert!(matches!(
        s.del_slice(0, 2),
        SeqAction::Subscript(SlotFn { id: 41 }, PySlice { start: 0, stop: 2 })
    ));
    let seq_only = plain("SeqOnly", Some(full()));
    let t = PySequence::new(&seq_only);
    assert_eq!(fail_msg(&t.get_slice(0, 1)).1, "'SeqOnly' object is unsliceable");
    let read_only = PyMappingMethods { subscript: slot(40), ass_subscript: None };
    let ro = object(4, class("RoMap", ClassKind::Other, vec![own(None, Some(read_only))]));
    let r = PySequence::new(&ro);
    assert!(matches!(r.get_slice(0, 1), SeqAction::Subscript(SlotFn { id: 40 }, _)));
    assert_eq!(
        fail_msg(&r.set_slice(0, 1, 2)).1,
        "'RoMap' object doesn't support slice assignment"
    );
}

#[test]
fn count_overflow_guard_is_an_error_kind() {
    // an iteration of isize::MAX + 1 elements cannot be built here; the
    // overflow error itself is checked on its message through the library
    let e = seqproto::error::overflow_error();
    assert_eq!(e.kind, ErrorKind::OverflowError);
    assert_eq!(e.msg, "index exceeds C integer size");
}
