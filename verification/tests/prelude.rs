use dora::prelude::{
    find_method, find_static_method, find_trait, init, install_conditional_intrinsics,
    internal_class, internal_classes, internal_fct, internal_free_classes, internal_functions,
    internal_impl, internal_method, intrinsic_fct, intrinsic_impl, intrinsic_method,
    known_methods, native_fct, native_method,
};
use dora::registry::{
    conditional_registrations, internal_function_registrations, known_class, register,
    register_all, KnownClass, Registration, Target,
};
use dora::sym::Sym;
use dora::ty::BuiltinType;
use dora::vm::{
    Class, ClassDefId, ClassId, Fct, FctId, FctKind, ImplData, ImplId, InstanceSize, Interner,
    Intrinsic, Name, NativeFct, TraitData, TraitId, VM,
};

fn add_class(vm: &mut VM, name: &str, internal: bool) -> ClassId {
    let name = vm.interner.intern(name);
    let id = ClassId(vm.classes.len());
    vm.classes.push(Class {
        name,
        ty: BuiltinType::Class(id),
        parent_class: None,
        internal,
        internal_resolved: false,
        is_str: false,
        is_array: false,
        methods: Vec::new(),
        impls: Vec::new(),
    });
    assert!(vm.sym.insert(name, Sym::SymClass(id)).is_ok());
    id
}

fn add_trait(vm: &mut VM, name: &str) -> TraitId {
    let name = vm.interner.intern(name);
    let id = TraitId(vm.traits.len());
    vm.traits.push(TraitData { name });
    assert!(vm.sym.insert(name, Sym::SymTrait(id)).is_ok());
    id
}

fn new_fct(vm: &mut VM, name: &str, is_static: bool, internal: bool) -> FctId {
    let name = vm.interner.intern(name);
    let id = FctId(vm.fcts.len());
    vm.fcts.push(Fct {
        name,
        is_static,
        internal,
        internal_resolved: false,
        kind: FctKind::Definition,
        params_types: Vec::new(),
        return_type: BuiltinType::Unit,
    });
    id
}

fn add_fct(vm: &mut VM, name: &str, internal: bool) -> FctId {
    let id = new_fct(vm, name, false, internal);
    let name = vm.fcts[id.0].name;
    assert!(vm.sym.insert(name, Sym::SymFct(id)).is_ok());
    id
}

fn add_method(vm: &mut VM, cls: ClassId, name: &str, is_static: bool, internal: bool) -> FctId {
    let id = new_fct(vm, name, is_static, internal);
    vm.classes[cls.0].methods.push(id);
    id
}

const CLASSES: [&str; 16] = [
    "Unit",
    "Bool",
    "UInt8",
    "Char",
    "Int",
    "Int32",
    "Int64",
    "Float",
    "Double",
    "Object",
    "String",
    "StringBuffer",
    "Array",
    "Testing",
    "Stacktrace",
    "StacktraceElement",
];

fn program() -> VM {
    let mut vm = VM::new();
    for name in CLASSES.iter() {
        add_class(&mut vm, name, true);
    }
    add_trait(&mut vm, "Stringable");
    add_trait(&mut vm, "Zero");
    add_trait(&mut vm, "Iterator");
    internal_classes(&mut vm);
    vm
}

#[test]
fn interner_gives_each_string_one_name() {
    let mut interner = Interner::new();
    assert_eq!(interner.lookup("a"), None);
    let a = interner.intern("a");
    let b = interner.intern("b");
    assert_eq!(a, Name(0));
    assert_eq!(b, Name(1));
    assert_eq!(interner.intern("a"), a);
    assert_eq!(interner.lookup("b"), Some(b));
    assert_eq!(interner.lookup("c"), None);
    assert_eq!(interner.str(b), "b");
}

#[test]
fn init_brings_builtin_types_and_assert() {
    let mut vm = VM::new();
    init(&mut vm);
    let int = vm.interner.lookup("int").unwrap();
    let boolean = vm.interner.lookup("bool").unwrap();
    let string = vm.interner.lookup("str").unwrap();
    let assert = vm.interner.lookup("assert").unwrap();
    assert_eq!(vm.sym.find(int), Some(&Sym::SymType(BuiltinType::Int)));
    assert_eq!(vm.sym.find(boolean), Some(&Sym::SymType(BuiltinType::Bool)));
    assert_eq!(vm.sym.find(string), Some(&Sym::SymType(BuiltinType::Str)));
    assert_eq!(vm.sym.find(assert), Some(&Sym::SymFct(FctId(0))));
    assert_eq!(vm.fcts.len(), 1);
    assert_eq!(vm.fcts[0].name, assert);
    assert_eq!(vm.fcts[0].params_types, vec![BuiltinType::Bool]);
    assert_eq!(vm.fcts[0].return_type, BuiltinType::Unit);
    assert_eq!(vm.fcts[0].kind, FctKind::Definition);
}

#[test]
fn init_keeps_what_the_context_held() {
    let mut vm = VM::new();
    let f = add_fct(&mut vm, "main", false);
    let main = vm.fcts[f.0].name;
    init(&mut vm);
    assert_eq!(vm.sym.find(main), Some(&Sym::SymFct(f)));
    assert_eq!(vm.fcts.len(), 2);
    let assert = vm.interner.lookup("assert").unwrap();
    assert_eq!(vm.sym.find(assert), Some(&Sym::SymFct(FctId(1))));
}

#[test]
fn add_function_refuses_a_name_that_is_taken() {
    let mut vm = VM::new();
    let name = vm.interner.intern("f");
    let fct = |name| Fct {
        name,
        is_static: false,
        internal: false,
        internal_resolved: false,
        kind: FctKind::Source,
        params_types: Vec::new(),
        return_type: BuiltinType::Int,
    };
    assert_eq!(vm.add_function(fct(name)), Ok(FctId(0)));
    assert_eq!(vm.add_function(fct(name)), Err(()));
    assert_eq!(vm.fcts.len(), 1);
}

#[test]
fn methods_are_found_by_name_and_staticness() {
    let mut vm = VM::new();
    let cls = add_class(&mut vm, "StringBuffer", false);
    let a = add_method(&mut vm, cls, "append", true, false);
    let b = add_method(&mut vm, cls, "append", false, false);
    let c = add_method(&mut vm, cls, "empty", true, false);
    let d = add_method(&mut vm, cls, "append", false, false);
    assert_eq!(find_static_method(&vm, cls, "append"), a);
    assert_eq!(find_method(&vm, cls, "append"), b);
    assert_eq!(find_static_method(&vm, cls, "empty"), c);
    assert!(d != b);
}

#[test]
fn known_methods_finds_the_string_buffer_methods() {
    let mut vm = VM::new();
    add_class(&mut vm, "Other", false);
    let cls = add_class(&mut vm, "StringBuffer", false);
    vm.vips.cls.string_buffer = cls;
    let to_string = add_method(&mut vm, cls, "toString", false, false);
    let _static_append = add_method(&mut vm, cls, "append", true, false);
    let append = add_method(&mut vm, cls, "append", false, false);
    let _instance_empty = add_method(&mut vm, cls, "empty", false, false);
    let empty = add_method(&mut vm, cls, "empty", true, false);
    known_methods(&mut vm);
    assert_eq!(vm.vips.fct.string_buffer_empty, empty);
    assert_eq!(vm.vips.fct.string_buffer_append, append);
    assert_eq!(vm.vips.fct.string_buffer_to_string, to_string);
}

#[test]
fn find_trait_by_name() {
    let mut vm = VM::new();
    add_trait(&mut vm, "A");
    let zero = add_trait(&mut vm, "Zero");
    assert_eq!(find_trait(&vm, "Zero"), zero);
}

#[test]
fn internal_class_resolves_internal_classes_only() {
    let mut vm = VM::new();
    let a = add_class(&mut vm, "A", true);
    let b = add_class(&mut vm, "B", false);
    let c = add_class(&mut vm, "C", true);
    assert_eq!(internal_class(&mut vm, "A", Some(BuiltinType::Int)), a);
    assert_eq!(internal_class(&mut vm, "B", Some(BuiltinType::Bool)), b);
    assert_eq!(internal_class(&mut vm, "C", None), c);
    assert_eq!(vm.classes[a.0].ty, BuiltinType::Int);
    assert!(vm.classes[a.0].internal_resolved);
    assert_eq!(vm.classes[b.0].ty, BuiltinType::Class(b));
    assert!(!vm.classes[b.0].internal_resolved);
    assert_eq!(vm.classes[c.0].ty, BuiltinType::Class(c));
    assert!(vm.classes[c.0].internal_resolved);
}

#[test]
fn internal_classes_finds_the_known_classes() {
    let vm = program();
    let id = |name: &str| ClassId(CLASSES.iter().position(|n| *n == name).unwrap());
    assert_eq!(vm.vips.unit_class, id("Unit"));
    assert_eq!(vm.vips.bool_class, id("Bool"));
    assert_eq!(vm.vips.uint8_class, id("UInt8"));
    assert_eq!(vm.vips.char_class, id("Char"));
    assert_eq!(vm.vips.int_class, id("Int"));
    assert_eq!(vm.vips.int32_class, id("Int32"));
    assert_eq!(vm.vips.int64_class, id("Int64"));
    assert_eq!(vm.vips.float_class, id("Float"));
    assert_eq!(vm.vips.double_class, id("Double"));
    assert_eq!(vm.vips.object_class, id("Object"));
    assert_eq!(vm.vips.string_class, id("String"));
    assert_eq!(vm.vips.cls.string_buffer, id("StringBuffer"));
    assert_eq!(vm.vips.array_class, id("Array"));
    assert_eq!(vm.vips.testing_class, id("Testing"));
    assert_eq!(vm.vips.stacktrace_class, id("Stacktrace"));
    assert_eq!(vm.vips.stacktrace_element_class, id("StacktraceElement"));
    assert_eq!(vm.vips.stringable_trait, TraitId(0));
    assert_eq!(vm.vips.zero_trait, TraitId(1));
    assert_eq!(vm.vips.iterator_trait, Some(TraitId(2)));

    let types = [
        ("Unit", BuiltinType::Unit),
        ("Bool", BuiltinType::Bool),
        ("UInt8", BuiltinType::Byte),
        ("Char", BuiltinType::Char),
        ("Int", BuiltinType::Int),
        ("Int32", BuiltinType::Int),
        ("Int64", BuiltinType::Long),
        ("Float", BuiltinType::Float),
        ("Double", BuiltinType::Double),
    ];
    for (name, ty) in types.iter() {
        assert_eq!(vm.classes[id(name).0].ty, *ty);
    }
    assert_eq!(vm.classes[id("Object").0].ty, BuiltinType::Class(id("Object")));
    for cls in vm.classes.iter() {
        assert!(cls.internal_resolved);
    }
    for (i, cls) in vm.classes.iter().enumerate() {
        assert_eq!(cls.is_str, i == id("String").0);
        assert_eq!(cls.is_array, i == id("Array").0);
    }
}

#[test]
fn internal_classes_adds_the_classes_of_free_memory() {
    let vm = program();
    assert_eq!(vm.class_defs.len(), 2);
    assert_eq!(vm.vips.free_object_class_def, ClassDefId(0));
    assert_eq!(vm.vips.free_array_class_def, ClassDefId(1));
    let object = &vm.class_defs[0];
    assert_eq!(object.id, ClassDefId(0));
    assert_eq!(object.cls_id, None);
    assert_eq!(object.parent_id, None);
    assert_eq!(object.size, InstanceSize::Fixed(16));
    assert!(object.fields.is_empty() && object.ref_fields.is_empty());
    let vtable = object.vtable.as_ref().unwrap();
    assert_eq!(vtable.classptr, ClassDefId(0));
    assert_eq!((vtable.instance_size, vtable.element_size), (16, 0));
    assert!(vtable.table.is_empty());
    let array = &vm.class_defs[1];
    assert_eq!(array.id, ClassDefId(1));
    assert_eq!(array.size, InstanceSize::FreeArray);
    let vtable = array.vtable.as_ref().unwrap();
    assert_eq!(vtable.classptr, ClassDefId(1));
    assert_eq!((vtable.instance_size, vtable.element_size), (0, 8));
}

#[test]
fn internal_free_classes_follow_the_class_defs_that_exist() {
    let mut vm = VM::new();
    internal_free_classes(&mut vm);
    internal_free_classes(&mut vm);
    assert_eq!(vm.class_defs.len(), 4);
    assert_eq!(vm.vips.free_object_class_def, ClassDefId(2));
    assert_eq!(vm.vips.free_array_class_def, ClassDefId(3));
    assert_eq!(vm.class_defs[3].vtable.as_ref().unwrap().classptr, ClassDefId(3));
    assert_eq!(ClassDefId(3).to_usize(), 3);
}

#[test]
fn internal_fct_resolves_internal_functions_only() {
    let mut vm = VM::new();
    let print = add_fct(&mut vm, "print", true);
    let user = add_fct(&mut vm, "user", false);
    internal_fct(&mut vm, "print", FctKind::Native(NativeFct::Print));
    internal_fct(&mut vm, "user", FctKind::Native(NativeFct::Exit));
    internal_fct(&mut vm, "missing", FctKind::Native(NativeFct::Abort));
    assert_eq!(vm.fcts[print.0].kind, FctKind::Native(NativeFct::Print));
    assert!(vm.fcts[print.0].internal_resolved);
    assert_eq!(vm.fcts[user.0].kind, FctKind::Definition);
    assert!(!vm.fcts[user.0].internal_resolved);
    assert!(vm.interner.lookup("missing").is_some());
    assert_eq!(vm.fcts.len(), 2);
}

#[test]
fn native_and_intrinsic_functions() {
    let mut vm = VM::new();
    let exit = add_fct(&mut vm, "exit", true);
    let debug = add_fct(&mut vm, "debug", true);
    native_fct(&mut vm, "exit", NativeFct::Exit);
    intrinsic_fct(&mut vm, "debug", Intrinsic::Debug);
    assert_eq!(vm.fcts[exit.0].kind, FctKind::Native(NativeFct::Exit));
    assert_eq!(vm.fcts[debug.0].kind, FctKind::Builtin(Intrinsic::Debug));
}

#[test]
fn internal_method_resolves_the_first_method_of_the_name() {
    let mut vm = VM::new();
    let cls = add_class(&mut vm, "Int", true);
    let other = add_class(&mut vm, "Other", true);
    let plus = add_method(&mut vm, cls, "plus", false, true);
    let first = add_method(&mut vm, cls, "minus", false, true);
    let second = add_method(&mut vm, cls, "minus", true, true);
    let foreign = add_method(&mut vm, other, "minus", false, true);
    internal_method(&mut vm, cls, "minus", FctKind::Builtin(Intrinsic::Int32Sub));
    assert_eq!(vm.fcts[first.0].kind, FctKind::Builtin(Intrinsic::Int32Sub));
    assert!(vm.fcts[first.0].internal_resolved);
    for id in [plus, second, foreign].iter() {
        assert_eq!(vm.fcts[id.0].kind, FctKind::Definition);
        assert!(!vm.fcts[id.0].internal_resolved);
    }
    internal_method(&mut vm, cls, "absent", FctKind::Builtin(Intrinsic::Int32Add));
    native_method(&mut vm, cls, "plus", NativeFct::IntToString);
    assert_eq!(vm.fcts[plus.0].kind, FctKind::Native(NativeFct::IntToString));
    intrinsic_method(&mut vm, other, "minus", Intrinsic::Int64Sub);
    assert_eq!(vm.fcts[foreign.0].kind, FctKind::Builtin(Intrinsic::Int64Sub));
}

#[test]
fn internal_impl_resolves_the_method_of_the_trait() {
    let mut vm = VM::new();
    let cls = add_class(&mut vm, "Int", true);
    let show = add_trait(&mut vm, "Show");
    let zero = add_trait(&mut vm, "Zero");
    let show_user = new_fct(&mut vm, "make", false, false);
    let show_make = new_fct(&mut vm, "make", false, true);
    let zero_other = new_fct(&mut vm, "other", false, true);
    let zero_plain = new_fct(&mut vm, "make", false, false);
    let zero_make = new_fct(&mut vm, "make", false, true);
    let zero_again = new_fct(&mut vm, "make", false, true);
    vm.impls.push(ImplData { trait_id: Some(show), methods: vec![show_user, show_make] });
    vm.impls.push(ImplData { trait_id: None, methods: vec![] });
    vm.impls.push(ImplData { trait_id: Some(zero), methods: vec![zero_other, zero_plain, zero_make] });
    vm.impls.push(ImplData { trait_id: Some(zero), methods: vec![zero_again] });
    vm.classes[cls.0].impls = vec![ImplId(0), ImplId(1), ImplId(2), ImplId(3)];

    internal_impl(&mut vm, cls, zero, "make", FctKind::Builtin(Intrinsic::Int32Add));
    assert_eq!(vm.fcts[zero_make.0].kind, FctKind::Builtin(Intrinsic::Int32Add));
    assert!(vm.fcts[zero_make.0].internal_resolved);
    for id in [show_user, show_make, zero_other, zero_plain, zero_again].iter() {
        assert_eq!(vm.fcts[id.0].kind, FctKind::Definition);
        assert!(!vm.fcts[id.0].internal_resolved);
    }
    intrinsic_impl(&mut vm, cls, show, "make", Intrinsic::Int32Sub);
    assert_eq!(vm.fcts[show_make.0].kind, FctKind::Builtin(Intrinsic::Int32Sub));
    assert_eq!(vm.fcts[show_user.0].kind, FctKind::Definition);
    intrinsic_impl(&mut vm, cls, show, "absent", Intrinsic::Int32Sub);
}

#[test]
fn table_of_internal_functions() {
    let table = internal_function_registrations();
    assert_eq!(table.len(), 147);
    assert_eq!(table[0].name, "fatalError");
    assert_eq!(table[0].target, Target::Function);
    assert_eq!(table[0].kind, FctKind::Native(NativeFct::FatalError));
    assert_eq!(table[5].name, "assert");
    assert_eq!(table[5].kind, FctKind::Builtin(Intrinsic::Assert));
    assert_eq!(table[16].name, "toString");
    assert_eq!(table[16].target, Target::Method(KnownClass::UInt8));
    assert_eq!(table[16].kind, FctKind::Native(NativeFct::ByteToString));
    let last = &table[146];
    assert_eq!(last.name, "getStacktraceElement");
    assert_eq!(last.target, Target::Method(KnownClass::Stacktrace));
    assert_eq!(last.kind, FctKind::Native(NativeFct::StackElement));
    let count = |target: Target| table.iter().filter(|r| r.target == target).count();
    assert_eq!(count(Target::Function), 16);
    assert_eq!(count(Target::Method(KnownClass::Int)), 26);
    assert_eq!(count(Target::Method(KnownClass::Int32)), 18);
    assert_eq!(count(Target::Method(KnownClass::Int64)), 25);
    assert_eq!(count(Target::Method(KnownClass::String)), 11);
}

#[test]
fn builtin_functions_are_resolved() {
    let mut vm = program();
    let assert = add_fct(&mut vm, "assert", true);
    let print = add_fct(&mut vm, "print", true);
    let println = add_fct(&mut vm, "println", true);
    let user = add_fct(&mut vm, "exit", false);
    internal_functions(&mut vm);
    assert_eq!(vm.fcts[assert.0].kind, FctKind::Builtin(Intrinsic::Assert));
    assert_eq!(vm.fcts[print.0].kind, FctKind::Native(NativeFct::Print));
    assert_eq!(vm.fcts[println.0].kind, FctKind::Native(NativeFct::Println));
    assert!(vm.fcts[assert.0].internal_resolved);
    assert!(vm.fcts[print.0].internal_resolved);
    assert!(vm.fcts[println.0].internal_resolved);
    assert_eq!(vm.fcts[user.0].kind, FctKind::Definition);
    assert!(!vm.fcts[user.0].internal_resolved);
}

#[test]
fn internal_functions_resolve_methods_of_their_class() {
    let mut vm = program();
    let int = vm.vips.int_class;
    let long = vm.vips.int64_class;
    let string = vm.vips.string_class;
    let int_plus = add_method(&mut vm, int, "plus", false, true);
    let long_plus = add_method(&mut vm, long, "plus", false, true);
    let string_plus = add_method(&mut vm, string, "plus", false, true);
    let int_to_string = add_method(&mut vm, int, "toString", false, true);
    let int_unknown = add_method(&mut vm, int, "unknown", false, true);
    let thread = add_class(&mut vm, "Thread", false);
    let start = add_method(&mut vm, thread, "start", false, true);
    internal_functions(&mut vm);
    assert_eq!(vm.fcts[int_plus.0].kind, FctKind::Builtin(Intrinsic::Int32Add));
    assert_eq!(vm.fcts[long_plus.0].kind, FctKind::Builtin(Intrinsic::Int64Add));
    assert_eq!(vm.fcts[string_plus.0].kind, FctKind::Native(NativeFct::Strcat));
    assert_eq!(vm.fcts[int_to_string.0].kind, FctKind::Native(NativeFct::IntToString));
    assert_eq!(vm.fcts[int_unknown.0].kind, FctKind::Definition);
    assert!(!vm.fcts[int_unknown.0].internal_resolved);
    assert_eq!(vm.fcts[start.0].kind, FctKind::Native(NativeFct::SpawnThread));
}

#[test]
fn conditional_intrinsics_follow_the_processor() {
    assert_eq!(conditional_registrations(false, false, false).len(), 0);
    assert_eq!(conditional_registrations(true, false, true).len(), 8);
    let all = conditional_registrations(true, true, true);
    assert_eq!(all.len(), 12);
    assert_eq!(all[0].name, "countZeroBits");
    assert_eq!(all[0].target, Target::Method(KnownClass::Int));
    assert_eq!(all[11].name, "countOneBitsTrailing");
    assert_eq!(all[11].kind, FctKind::Builtin(Intrinsic::Int64CountOneBitsTrailing));

    let mut vm = program();
    let int = vm.vips.int_class;
    let long = vm.vips.int64_class;
    let ones = add_method(&mut vm, int, "countOneBits", false, true);
    let leading = add_method(&mut vm, int, "countZeroBitsLeading", false, true);
    let trailing = add_method(&mut vm, long, "countOneBitsTrailing", false, true);
    install_conditional_intrinsics(&mut vm, true, false, true);
    assert_eq!(vm.fcts[ones.0].kind, FctKind::Builtin(Intrinsic::Int32CountOneBits));
    assert_eq!(vm.fcts[leading.0].kind, FctKind::Definition);
    assert_eq!(vm.fcts[trailing.0].kind, FctKind::Builtin(Intrinsic::Int64CountOneBitsTrailing));
    install_conditional_intrinsics(&mut vm, false, true, false);
    assert_eq!(vm.fcts[leading.0].kind, FctKind::Builtin(Intrinsic::Int32CountZeroBitsLeading));
}

#[test]
fn tables_apply_in_their_order() {
    let mut vm = program();
    let f = add_fct(&mut vm, "f", true);
    let uint8 = known_class(&vm.vips, KnownClass::UInt8);
    assert_eq!(uint8, vm.vips.uint8_class);
    let m = add_method(&mut vm, uint8, "m", false, true);
    let table = vec![
        Registration { target: Target::Function, name: "f", kind: FctKind::Native(NativeFct::Abort) },
        Registration {
            target: Target::Method(KnownClass::UInt8),
            name: "m",
            kind: FctKind::Builtin(Intrinsic::ByteNot),
        },
        Registration { target: Target::Function, name: "f", kind: FctKind::Native(NativeFct::Exit) },
    ];
    register(&mut vm, &table[0]);
    assert_eq!(vm.fcts[f.0].kind, FctKind::Native(NativeFct::Abort));
    register_all(&mut vm, &table);
    assert_eq!(vm.fcts[f.0].kind, FctKind::Native(NativeFct::Exit));
    assert_eq!(vm.fcts[m.0].kind, FctKind::Builtin(Intrinsic::ByteNot));
}

#[test]
fn new_context_knows_nothing() {
    let vm = VM::new();
    assert!(vm.classes.is_empty() && vm.class_defs.is_empty() && vm.fcts.is_empty());
    assert!(vm.impls.is_empty() && vm.traits.is_empty() && vm.structs.is_empty());
    assert!(vm.tuples.is_empty());
    assert_eq!(vm.types.len(), 0);
    assert_eq!(vm.interner.lookup("int"), None);
    assert_eq!(vm.sym.find(Name(0)), None);
    assert_eq!(vm.vips.unit_class, ClassId(0));
    assert_eq!(vm.vips.string_class, ClassId(0));
    assert_eq!(vm.vips.cls.string_buffer, ClassId(0));
    assert_eq!(vm.vips.fct.string_buffer_append, FctId(0));
    assert_eq!(vm.vips.stringable_trait, TraitId(0));
    assert_eq!(vm.vips.iterator_trait, None);
    assert_eq!(vm.vips.free_array_class_def, ClassDefId(0));
}
