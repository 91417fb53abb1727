use dora::mem;
use dora::ty::{decimal_string, same_types, BuiltinType, MachineMode, TypeId, Types};
use dora::vm::{
    Class, ClassId, Name, StructData, StructId, TraitData, TraitId, Tuple, TupleId, TypeParamId, VM,
};

fn class(vm: &mut VM, name: &str, parent: Option<ClassId>) -> ClassId {
    let name = vm.interner.intern(name);
    let id = ClassId(vm.classes.len());
    vm.classes.push(Class {
        name,
        ty: BuiltinType::Class(id),
        parent_class: parent,
        internal: false,
        internal_resolved: false,
        is_str: false,
        is_array: false,
        methods: Vec::new(),
        impls: Vec::new(),
    });
    id
}

#[test]
fn mode_size() {
    assert_eq!(1, MachineMode::Int8.size());
    assert_eq!(4, MachineMode::Int32.size());
    assert_eq!(mem::ptr_width(), MachineMode::Ptr.size());
}

#[test]
fn mode_for_types() {
    assert_eq!(MachineMode::Int8, BuiltinType::Bool.mode());
    assert_eq!(MachineMode::Int32, BuiltinType::Int.mode());
    assert_eq!(MachineMode::Ptr, BuiltinType::Ptr.mode());
    assert_eq!(MachineMode::Ptr, BuiltinType::Str.mode());
}

#[test]
fn mode_of_every_type_that_has_one() {
    assert_eq!(MachineMode::Int8, BuiltinType::Byte.mode());
    assert_eq!(MachineMode::Int32, BuiltinType::Char.mode());
    assert_eq!(MachineMode::Int64, BuiltinType::Long.mode());
    assert_eq!(MachineMode::Float32, BuiltinType::Float.mode());
    assert_eq!(MachineMode::Float64, BuiltinType::Double.mode());
    assert_eq!(MachineMode::Ptr, BuiltinType::Class(ClassId(0)).mode());
    assert_eq!(MachineMode::Ptr, BuiltinType::Generic(TypeId(0)).mode());
    assert_eq!(8, MachineMode::Int64.size());
    assert_eq!(4, MachineMode::Float32.size());
    assert_eq!(8, MachineMode::Float64.size());
}

#[test]
fn machine_mode_is_float() {
    assert!(MachineMode::Float32.is_float());
    assert!(MachineMode::Float64.is_float());
    assert!(!MachineMode::Int8.is_float());
    assert!(!MachineMode::Int32.is_float());
    assert!(!MachineMode::Int64.is_float());
    assert!(!MachineMode::Ptr.is_float());
}

#[test]
fn kinds_of_types() {
    assert!(BuiltinType::Unit.is_unit());
    assert!(!BuiltinType::Int.is_unit());
    assert!(BuiltinType::Nil.is_nil());
    assert!(!BuiltinType::Ptr.is_nil());
    assert!(BuiltinType::Class(ClassId(1)).is_cls());
    assert!(!BuiltinType::Str.is_cls());
    assert!(BuiltinType::Str.is_str());
    assert!(!BuiltinType::Class(ClassId(1)).is_str());
    assert!(BuiltinType::Float.is_float());
    assert!(BuiltinType::Double.is_float());
    assert!(!BuiltinType::Long.is_float());
    assert!(BuiltinType::Generic(TypeId(0)).is_generic());
    assert!(!BuiltinType::Int.is_generic());
    assert!(BuiltinType::TypeParam(TypeParamId(0)).is_type_param());
    assert!(!BuiltinType::Int.is_type_param());
    assert_eq!(BuiltinType::Generic(TypeId(5)).type_id(), TypeId(5));
    assert_eq!(BuiltinType::Tuple(TupleId(2)).tuple_id(), Some(TupleId(2)));
    assert_eq!(BuiltinType::Int.tuple_id(), None);
    assert_eq!(TypeParamId(9).idx(), 9);
}

#[test]
fn values_and_references() {
    let values = [
        BuiltinType::Unit,
        BuiltinType::Bool,
        BuiltinType::Byte,
        BuiltinType::Char,
        BuiltinType::Int,
        BuiltinType::Long,
        BuiltinType::Float,
        BuiltinType::Double,
        BuiltinType::Struct(StructId(0)),
        BuiltinType::Tuple(TupleId(0)),
    ];
    for ty in values.iter() {
        assert!(ty.value_type());
        assert!(!ty.reference_type());
    }
    let references = [
        BuiltinType::Nil,
        BuiltinType::Ptr,
        BuiltinType::This,
        BuiltinType::Str,
        BuiltinType::Class(ClassId(0)),
        BuiltinType::Trait(TraitId(0)),
        BuiltinType::TypeParam(TypeParamId(0)),
        BuiltinType::Generic(TypeId(0)),
    ];
    for ty in references.iter() {
        assert!(ty.reference_type());
        assert!(!ty.value_type());
    }
}

#[test]
fn size_and_align_of_types() {
    let mut vm = VM::new();
    vm.structs.push(StructData { name: Name(0), size: 12, align: 4 });
    vm.tuples.push(Tuple { size: 24, align: 8, references: vec![8] });
    let cls = class(&mut vm, "Foo", None);
    let generic = vm.types.insert(BuiltinType::Class(cls), vec![BuiltinType::Int]);
    vm.types.set_cls_id(generic, cls);
    let cases = [
        (BuiltinType::Unit, 0, 0),
        (BuiltinType::Bool, 1, 1),
        (BuiltinType::Byte, 1, 1),
        (BuiltinType::Char, 4, 4),
        (BuiltinType::Int, 4, 4),
        (BuiltinType::Long, 8, 8),
        (BuiltinType::Float, 4, 4),
        (BuiltinType::Double, 8, 8),
        (BuiltinType::Str, 8, 8),
        (BuiltinType::Ptr, 8, 8),
        (BuiltinType::Class(cls), 8, 8),
        (BuiltinType::Trait(TraitId(0)), 16, 8),
        (BuiltinType::Struct(StructId(0)), 12, 4),
        (BuiltinType::Tuple(TupleId(0)), 24, 8),
        (BuiltinType::Generic(generic), 8, 8),
    ];
    for (ty, size, align) in cases.iter() {
        assert_eq!(ty.size(&vm), *size);
        assert_eq!(ty.align(&vm), *align);
    }
}

#[test]
fn class_of_a_type() {
    let mut vm = VM::new();
    let a = class(&mut vm, "A", None);
    let s = class(&mut vm, "String", None);
    vm.vips.string_class = s;
    assert_eq!(BuiltinType::Class(a).cls_id(&vm), a);
    assert_eq!(BuiltinType::Str.cls_id(&vm), s);
}

#[test]
fn generic_types_specialize_to_their_class() {
    let mut vm = VM::new();
    let a = class(&mut vm, "A", None);
    let id = vm.types.insert(BuiltinType::Class(a), vec![BuiltinType::Int]);
    vm.types.set_cls_id(id, a);
    assert_eq!(BuiltinType::Generic(id).to_specialized(&vm), BuiltinType::Class(a));
    assert_eq!(BuiltinType::Int.to_specialized(&vm), BuiltinType::Int);
    assert_eq!(BuiltinType::Class(a).to_specialized(&vm), BuiltinType::Class(a));
}

#[test]
fn subclasses_follow_the_parents() {
    let mut vm = VM::new();
    let a = class(&mut vm, "A", None);
    let b = class(&mut vm, "B", Some(a));
    let c = class(&mut vm, "C", Some(b));
    let d = class(&mut vm, "D", None);
    let (ta, tb, tc, td) =
        (BuiltinType::Class(a), BuiltinType::Class(b), BuiltinType::Class(c), BuiltinType::Class(d));
    assert!(tc.subclass_from(&vm, ta));
    assert!(tc.subclass_from(&vm, tb));
    assert!(tc.subclass_from(&vm, tc));
    assert!(tb.subclass_from(&vm, ta));
    assert!(!ta.subclass_from(&vm, tb));
    assert!(!ta.subclass_from(&vm, tc));
    assert!(!td.subclass_from(&vm, ta));
    assert!(!tc.subclass_from(&vm, td));
    assert!(!BuiltinType::Int.subclass_from(&vm, ta));
    assert!(!ta.subclass_from(&vm, BuiltinType::Int));
    assert!(vm.subclass_from(c, a));
    assert!(!vm.subclass_from(a, c));
}

#[test]
fn what_a_type_allows() {
    let mut vm = VM::new();
    let a = class(&mut vm, "A", None);
    let b = class(&mut vm, "B", Some(a));
    let s = class(&mut vm, "String", None);
    vm.vips.string_class = s;
    let id = vm.types.insert(BuiltinType::Class(a), vec![BuiltinType::Int]);
    vm.types.set_cls_id(id, a);
    let (ta, tb) = (BuiltinType::Class(a), BuiltinType::Class(b));

    assert!(BuiltinType::Int.allows(&vm, BuiltinType::Int));
    assert!(!BuiltinType::Int.allows(&vm, BuiltinType::Long));
    assert!(!BuiltinType::Bool.allows(&vm, BuiltinType::Nil));
    assert!(BuiltinType::Double.allows(&vm, BuiltinType::Double));
    assert!(!BuiltinType::Float.allows(&vm, BuiltinType::Double));
    assert!(BuiltinType::Struct(StructId(1)).allows(&vm, BuiltinType::Struct(StructId(1))));
    assert!(!BuiltinType::Struct(StructId(1)).allows(&vm, BuiltinType::Struct(StructId(2))));
    assert!(BuiltinType::TypeParam(TypeParamId(0)).allows(&vm, BuiltinType::TypeParam(TypeParamId(0))));

    assert!(ta.allows(&vm, ta));
    assert!(ta.allows(&vm, BuiltinType::Nil));
    assert!(ta.allows(&vm, tb));
    assert!(!tb.allows(&vm, ta));
    assert!(!ta.allows(&vm, BuiltinType::Int));
    assert!(!ta.allows(&vm, BuiltinType::Str));
    assert!(BuiltinType::Str.allows(&vm, BuiltinType::Str));
    assert!(BuiltinType::Str.allows(&vm, BuiltinType::Nil));
    assert!(BuiltinType::Str.allows(&vm, BuiltinType::Class(s)));
    assert!(!BuiltinType::Str.allows(&vm, ta));

    let generic = BuiltinType::Generic(id);
    assert!(generic.allows(&vm, generic));
    assert!(generic.allows(&vm, ta));
    assert!(generic.allows(&vm, tb));
    assert!(generic.allows(&vm, BuiltinType::Nil));
    assert!(!generic.allows(&vm, BuiltinType::Int));
}

#[test]
fn if_nil_replaces_nil_only() {
    assert_eq!(BuiltinType::Nil.if_nil(BuiltinType::Str), BuiltinType::Str);
    assert_eq!(BuiltinType::Int.if_nil(BuiltinType::Str), BuiltinType::Int);
}

#[test]
fn names_of_types() {
    let mut vm = VM::new();
    let foo = class(&mut vm, "Foo", None);
    let bar = class(&mut vm, "Bar", None);
    let point = vm.interner.intern("Point");
    vm.structs.push(StructData { name: point, size: 8, align: 4 });
    let show = vm.interner.intern("Show");
    vm.traits.push(TraitData { name: show });
    let inner = vm.types.insert(BuiltinType::Class(bar), vec![BuiltinType::Bool]);
    let outer = vm.types.insert(
        BuiltinType::Class(foo),
        vec![BuiltinType::Int, BuiltinType::Generic(inner), BuiltinType::Str],
    );
    let none = vm.types.insert(BuiltinType::Class(foo), vec![]);

    assert_eq!(BuiltinType::Unit.name(&vm), "()");
    assert_eq!(BuiltinType::Byte.name(&vm), "byte");
    assert_eq!(BuiltinType::Char.name(&vm), "char");
    assert_eq!(BuiltinType::Int.name(&vm), "int");
    assert_eq!(BuiltinType::Long.name(&vm), "long");
    assert_eq!(BuiltinType::Float.name(&vm), "float");
    assert_eq!(BuiltinType::Double.name(&vm), "float");
    assert_eq!(BuiltinType::Bool.name(&vm), "bool");
    assert_eq!(BuiltinType::Nil.name(&vm), "nil");
    assert_eq!(BuiltinType::This.name(&vm), "Self");
    assert_eq!(BuiltinType::Str.name(&vm), "Str");
    assert_eq!(BuiltinType::Class(foo).name(&vm), "Foo");
    assert_eq!(BuiltinType::Struct(StructId(0)).name(&vm), "Point");
    assert_eq!(BuiltinType::Trait(TraitId(0)).name(&vm), "Show");
    assert_eq!(BuiltinType::TypeParam(TypeParamId(0)).name(&vm), "#0");
    assert_eq!(BuiltinType::TypeParam(TypeParamId(1207)).name(&vm), "#1207");
    assert_eq!(BuiltinType::Generic(inner).name(&vm), "Bar<bool>");
    assert_eq!(BuiltinType::Generic(outer).name(&vm), "Foo<int, Bar<bool>, Str>");
    assert_eq!(BuiltinType::Generic(none).name(&vm), "Foo<>");
}

#[test]
fn decimal_digits() {
    assert_eq!(decimal_string(0), "0");
    assert_eq!(decimal_string(7), "7");
    assert_eq!(decimal_string(10), "10");
    assert_eq!(decimal_string(409), "409");
    assert_eq!(decimal_string(1234567890), "1234567890");
}

#[test]
fn types_are_interned_once() {
    let mut types = Types::new();
    assert_eq!(types.len(), 0);
    let cls = BuiltinType::Class(ClassId(0));
    let a = types.insert(cls, vec![BuiltinType::Int]);
    let b = types.insert(cls, vec![BuiltinType::Long]);
    let c = types.insert(cls, vec![BuiltinType::Int]);
    let d = types.insert(BuiltinType::Class(ClassId(1)), vec![BuiltinType::Int]);
    let e = types.insert(cls, vec![BuiltinType::Int, BuiltinType::Int]);
    assert_eq!(a, TypeId(0));
    assert_eq!(b, TypeId(1));
    assert_eq!(c, a);
    assert_eq!(d, TypeId(2));
    assert_eq!(e, TypeId(3));
    assert_eq!(types.len(), 4);
    assert_eq!(types.get(b).base, cls);
    assert_eq!(types.get(b).params, vec![BuiltinType::Long]);
    assert_eq!(types.get_cls_id(a), None);
    types.set_cls_id(a, ClassId(9));
    assert_eq!(types.get_cls_id(a), Some(ClassId(9)));
    assert_eq!(types.get_cls_id(b), None);
}

#[test]
fn lists_of_types_compare_by_elements() {
    assert!(same_types(&vec![], &vec![]));
    assert!(same_types(&vec![BuiltinType::Int, BuiltinType::Str], &vec![BuiltinType::Int, BuiltinType::Str]));
    assert!(!same_types(&vec![BuiltinType::Int], &vec![BuiltinType::Long]));
    assert!(!same_types(&vec![BuiltinType::Int], &vec![BuiltinType::Int, BuiltinType::Int]));
}

#[test]
fn rounding_of_sizes() {
    assert_eq!(mem::align_i32(0, 16), 0);
    assert_eq!(mem::align_i32(1, 16), 16);
    assert_eq!(mem::align_i32(16, 16), 16);
    assert_eq!(mem::align_i32(17, 8), 24);
    assert_eq!(mem::align_i32(5, 0), 5);
    assert_eq!(mem::ptr_width(), 8);
    assert_eq!(mem::ptr_width_usize(), 8);
    assert_eq!(mem::header_size(), 16);
    assert_eq!(mem::stack_frame_alignment(), 16);
}
