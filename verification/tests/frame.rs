use dora::frame::{ManagedStackFrame, ManagedStackSlot};
use dora::ty::BuiltinType;
use dora::vm::{ClassId, StructData, StructId, Tuple, TupleId, Name, VM};

fn sorted(mut offsets: Vec<i32>) -> Vec<i32> {
    offsets.sort();
    offsets
}

#[test]
fn new_frame_is_empty() {
    let frame = ManagedStackFrame::new();
    assert!(frame.is_empty());
    assert_eq!(frame.stacksize(), 0);
}

#[test]
fn frame_with_scope_or_storage_is_not_empty() {
    let vm = VM::new();
    let mut frame = ManagedStackFrame::new();
    frame.push_scope();
    assert!(!frame.is_empty());
    frame.pop_scope(&vm);
    assert!(frame.is_empty());
    let temp = frame.add_temp(BuiltinType::Int, &vm);
    assert!(!frame.is_empty());
    frame.free_temp(temp, &vm);
    assert!(frame.is_empty());
}

#[test]
fn alloc_on_empty_frame_extends_the_stack() {
    let vm = VM::new();
    let mut frame = ManagedStackFrame::new();
    let a = frame.add_temp(BuiltinType::Int, &vm);
    assert_eq!(a.offset(), -4);
    let b = frame.add_temp(BuiltinType::Long, &vm);
    assert_eq!(b.offset(), -16);
    let c = frame.add_temp(BuiltinType::Bool, &vm);
    assert_eq!(c.offset(), -17);
    let d = frame.add_temp(BuiltinType::Ptr, &vm);
    assert_eq!(d.offset(), -32);
    assert_eq!(frame.stacksize(), 32);
    let e = frame.add_temp(BuiltinType::Byte, &vm);
    assert_eq!(e.offset(), -33);
    assert_eq!(frame.stacksize(), 48);
}

#[test]
fn nil_is_stored_as_a_pointer() {
    let vm = VM::new();
    let mut frame = ManagedStackFrame::new();
    let a = frame.add_temp(BuiltinType::Bool, &vm);
    assert_eq!(a.offset(), -1);
    let n = frame.add_temp(BuiltinType::Nil, &vm);
    assert_eq!(n.offset(), -16);
    frame.free_temp(n, &vm);
    let p = frame.add_temp(BuiltinType::Ptr, &vm);
    assert_eq!(p.offset(), -16);
}

#[test]
fn names_are_handed_out_once() {
    let vm = VM::new();
    let mut frame = ManagedStackFrame::new();
    let a = frame.add_temp(BuiltinType::Int, &vm);
    let b = frame.add_temp(BuiltinType::Int, &vm);
    frame.free_temp(a, &vm);
    let c = frame.add_temp(BuiltinType::Int, &vm);
    assert_eq!(a.var.0, 0);
    assert_eq!(b.var.0, 1);
    assert_eq!(c.var.0, 2);
    assert_eq!(c.offset(), a.offset());
}

#[test]
fn freed_storage_is_used_again() {
    let vm = VM::new();
    let mut frame = ManagedStackFrame::new();
    let a = frame.add_temp(BuiltinType::Long, &vm);
    let b = frame.add_temp(BuiltinType::Long, &vm);
    let c = frame.add_temp(BuiltinType::Long, &vm);
    assert_eq!((a.offset(), b.offset(), c.offset()), (-8, -16, -24));
    frame.free_temp(b, &vm);
    let d = frame.add_temp(BuiltinType::Int, &vm);
    assert_eq!(d.offset(), -12);
    let e = frame.add_temp(BuiltinType::Int, &vm);
    assert_eq!(e.offset(), -16);
    let f = frame.add_temp(BuiltinType::Int, &vm);
    assert_eq!(f.offset(), -28);
    assert_eq!(frame.stacksize(), 32);
}

#[test]
fn freed_neighbours_merge_into_one_span() {
    let vm = VM::new();
    let mut frame = ManagedStackFrame::new();
    let a = frame.add_temp(BuiltinType::Int, &vm);
    let b = frame.add_temp(BuiltinType::Int, &vm);
    let c = frame.add_temp(BuiltinType::Long, &vm);
    frame.free_temp(a, &vm);
    frame.free_temp(b, &vm);
    let d = frame.add_temp(BuiltinType::Long, &vm);
    assert_eq!(d.offset(), -8);
    assert_eq!(c.offset(), -16);
    assert_eq!(frame.stacksize(), 16);
}

#[test]
fn stack_size_never_shrinks() {
    let vm = VM::new();
    let mut frame = ManagedStackFrame::new();
    let a = frame.add_temp(BuiltinType::Long, &vm);
    let b = frame.add_temp(BuiltinType::Long, &vm);
    let c = frame.add_temp(BuiltinType::Long, &vm);
    assert_eq!(frame.stacksize(), 32);
    frame.free_temp(c, &vm);
    frame.free_temp(a, &vm);
    frame.free_temp(b, &vm);
    assert_eq!(frame.stacksize(), 32);
    assert!(frame.is_empty());
}

#[test]
fn initial_stacksize_is_kept_clear() {
    let vm = VM::new();
    let mut frame = ManagedStackFrame::new();
    frame.initial_stacksize(20);
    assert_eq!(frame.stacksize(), 32);
    let a = frame.add_temp(BuiltinType::Long, &vm);
    assert_eq!(a.offset(), -32);
    let b = frame.add_temp(BuiltinType::Int, &vm);
    assert_eq!(b.offset(), -36);
    assert_eq!(frame.stacksize(), 48);
}

#[test]
fn pop_scope_frees_what_the_scope_owns() {
    let vm = VM::new();
    let mut frame = ManagedStackFrame::new();
    frame.push_scope();
    let a = frame.add_scope(BuiltinType::Long, &vm);
    let t = frame.add_temp(BuiltinType::Long, &vm);
    frame.push_scope();
    let b = frame.add_scope(BuiltinType::Long, &vm);
    let c = frame.add_scope(BuiltinType::Int, &vm);
    assert_eq!((a.offset(), t.offset(), b.offset(), c.offset()), (-8, -16, -24, -28));
    frame.pop_scope(&vm);
    let d = frame.add_temp(BuiltinType::Int, &vm);
    assert_eq!(d.offset(), -20);
    let e = frame.add_temp(BuiltinType::Long, &vm);
    assert_eq!(e.offset(), -40);
    frame.free_temp(d, &vm);
    frame.free_temp(e, &vm);
    frame.free_temp(t, &vm);
    assert!(!frame.is_empty());
    frame.pop_scope(&vm);
    assert!(frame.is_empty());
    let f = frame.add_temp(BuiltinType::Long, &vm);
    assert_eq!(f.offset(), -40);
    let g = frame.add_temp(BuiltinType::Long, &vm);
    assert_eq!(g.offset(), -8);
}

#[test]
fn gcpoint_holds_initialized_references_only() {
    let vm = VM::new();
    let mut frame = ManagedStackFrame::new();
    let a = frame.add_temp(BuiltinType::Class(ClassId(3)), &vm);
    let _b = frame.add_temp(BuiltinType::Int, &vm);
    let _c = frame.add_temp_uninitialized(BuiltinType::Class(ClassId(3)), &vm);
    let point = frame.gcpoint(&vm);
    assert_eq!(point.offsets, vec![a.offset()]);
}

#[test]
fn gcpoint_sees_storage_once_it_is_marked() {
    let vm = VM::new();
    let mut frame = ManagedStackFrame::new();
    let a = frame.add_temp(BuiltinType::Ptr, &vm);
    let c = frame.add_temp_uninitialized(BuiltinType::Str, &vm);
    assert_eq!(frame.gcpoint(&vm).offsets, vec![a.offset()]);
    frame.mark_initialized(c.var);
    assert_eq!(sorted(frame.gcpoint(&vm).offsets), vec![c.offset(), a.offset()]);
    frame.free_temp(a, &vm);
    assert_eq!(frame.gcpoint(&vm).offsets, vec![c.offset()]);
}

#[test]
fn gcpoint_leaves_values_out() {
    let mut vm = VM::new();
    vm.structs.push(StructData { name: Name(0), size: 24, align: 8 });
    let mut frame = ManagedStackFrame::new();
    frame.add_temp(BuiltinType::Bool, &vm);
    frame.add_temp(BuiltinType::Byte, &vm);
    frame.add_temp(BuiltinType::Char, &vm);
    frame.add_temp(BuiltinType::Int, &vm);
    frame.add_temp(BuiltinType::Long, &vm);
    frame.add_temp(BuiltinType::Float, &vm);
    frame.add_temp(BuiltinType::Double, &vm);
    let s = frame.add_temp(BuiltinType::Struct(StructId(0)), &vm);
    assert_eq!(s.offset(), -64);
    assert_eq!(frame.gcpoint(&vm).offsets, Vec::<i32>::new());
}

#[test]
fn gcpoint_holds_the_references_of_a_tuple() {
    let mut vm = VM::new();
    vm.tuples.push(Tuple { size: 24, align: 8, references: vec![0, 16] });
    vm.tuples.push(Tuple { size: 8, align: 4, references: vec![] });
    let mut frame = ManagedStackFrame::new();
    let i = frame.add_temp(BuiltinType::Int, &vm);
    let t = frame.add_temp(BuiltinType::Tuple(TupleId(0)), &vm);
    let u = frame.add_temp(BuiltinType::Tuple(TupleId(1)), &vm);
    let w = frame.add_temp_uninitialized(BuiltinType::Tuple(TupleId(0)), &vm);
    assert_eq!(i.offset(), -4);
    assert_eq!(t.offset(), -32);
    assert_eq!(u.offset(), -40);
    assert_eq!(w.offset(), -64);
    assert_eq!(sorted(frame.gcpoint(&vm).offsets), vec![-32, -16]);
    frame.mark_initialized(w.var);
    assert_eq!(sorted(frame.gcpoint(&vm).offsets), vec![-64, -48, -32, -16]);
}

#[test]
fn slot_offset_is_its_field() {
    let vm = VM::new();
    let mut frame = ManagedStackFrame::new();
    let slot: ManagedStackSlot = frame.add_temp(BuiltinType::Long, &vm);
    assert_eq!(slot.offset(), slot.offset);
}
