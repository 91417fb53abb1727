//! The code that the compiler itself has for functions and methods of the
//! program, as tables, and how such a table is applied to a context.

use vstd::prelude::*;
use crate::prelude::{
    fcts_with_fct, fcts_with_method, interned, internal_fct, internal_method, method_resolvable,
    resolution_step,
};
use crate::vm::{ClassId, Fct, FctKind, Intrinsic, KnownElements, NativeFct, VM};

verus! {

/// The classes whose methods the compiler has code for.
#[derive(Debug, Copy, Clone, PartialEq, Eq, Structural)]
pub enum KnownClass {
    UInt8,
    Char,
    Int,
    Int32,
    Int64,
    Bool,
    String,
    Float,
    Double,
    Array,
    Stacktrace,
}

/// The class of the context that a known class is.
pub open spec fn spec_known_class(vips: KnownElements, class: KnownClass) -> ClassId {
    match class {
        KnownClass::UInt8 => vips.uint8_class,
        KnownClass::Char => vips.char_class,
        KnownClass::Int => vips.int_class,
        KnownClass::Int32 => vips.int32_class,
        KnownClass::Int64 => vips.int64_class,
        KnownClass::Bool => vips.bool_class,
        KnownClass::String => vips.string_class,
        KnownClass::Float => vips.float_class,
        KnownClass::Double => vips.double_class,
        KnownClass::Array => vips.array_class,
        KnownClass::Stacktrace => vips.stacktrace_class,
    }
}

pub fn known_class(vips: &KnownElements, class: KnownClass) -> (r: ClassId)
    ensures
        r == spec_known_class(*vips, class),
{
    match class {
        KnownClass::UInt8 => vips.uint8_class,
        KnownClass::Char => vips.char_class,
        KnownClass::Int => vips.int_class,
        KnownClass::Int32 => vips.int32_class,
        KnownClass::Int64 => vips.int64_class,
        KnownClass::Bool => vips.bool_class,
        KnownClass::String => vips.string_class,
        KnownClass::Float => vips.float_class,
        KnownClass::Double => vips.double_class,
        KnownClass::Array => vips.array_class,
        KnownClass::Stacktrace => vips.stacktrace_class,
    }
}

/// What an entry of a table gives code to: a function of the program, or a
/// method of a known class.
#[derive(Debug, Copy, Clone, PartialEq, Eq, Structural)]
pub enum Target {
    Function,
    Method(KnownClass),
}

/// One entry of a table: the function or method called `name` has the code
/// `kind`.
#[derive(Debug, Copy, Clone)]
pub struct Registration {
    pub target: Target,
    pub name: &'static str,
    pub kind: FctKind,
}

/// A table as plain values.
pub open spec fn entries(table: Seq<Registration>) -> Seq<(Target, Seq<char>, FctKind)> {
    Seq::new(table.len(), |i: int| (table[i].target, table[i].name@, table[i].kind))
}

/// The names of the context `vm` once the first `n` entries of the table
/// are applied: the name of every entry is interned.
pub open spec fn names_after(vm: &VM, table: Seq<(Target, Seq<char>, FctKind)>, n: int) -> Seq<
    Seq<char>,
>
    decreases n,
{
    if n <= 0 {
        vm.interner@
    } else {
        interned(names_after(vm, table, n - 1), table[n - 1].1)
    }
}

/// The functions of the context `vm` once the first `n` entries of the
/// table are applied, one after the other.
pub open spec fn fcts_after(vm: &VM, table: Seq<(Target, Seq<char>, FctKind)>, n: int) -> Seq<Fct>
    decreases n,
{
    if n <= 0 {
        vm.fcts@
    } else {
        let (target, name, kind) = table[n - 1];
        let names = names_after(vm, table, n);
        let fcts = fcts_after(vm, table, n - 1);
        match target {
            Target::Function => fcts_with_fct(names, vm.sym@, fcts, name, kind),
            Target::Method(class) => fcts_with_method(
                names,
                vm.classes@[spec_known_class(vm.vips, class).0 as int].methods@,
                fcts,
                name,
                kind,
            ),
        }
    }
}

/// Whether the first `n` entries of the table can be applied to the context
/// `vm`: every known class that an entry names is a class of the context,
/// and the method that an entry gives code to is declared internal.
pub open spec fn registrable(vm: &VM, table: Seq<(Target, Seq<char>, FctKind)>, n: int) -> bool
    decreases n,
{
    if n <= 0 {
        true
    } else {
        &&& registrable(vm, table, n - 1)
        &&& table[n - 1].0 matches Target::Method(class) ==> {
            &&& spec_known_class(vm.vips, class).0 < vm.classes@.len()
            &&& method_resolvable(
                names_after(vm, table, n),
                vm.classes@[spec_known_class(vm.vips, class).0 as int].methods@,
                fcts_after(vm, table, n - 1),
                table[n - 1].1,
            )
        }
    }
}

proof fn lemma_registrable(vm: &VM, table: Seq<(Target, Seq<char>, FctKind)>, n: int, i: int)
    requires
        registrable(vm, table, n),
        0 <= i <= n,
    ensures
        registrable(vm, table, i),
    decreases n,
{
    if i < n {
        lemma_registrable(vm, table, n - 1, i);
    }
}

/// Applies one entry of a table.
pub fn register(vm: &mut VM, entry: &Registration)
    requires
        old(vm).wf(),
        entry.target matches Target::Method(class) ==> {
            &&& spec_known_class(old(vm).vips, class).0 < old(vm).classes@.len()
            &&& method_resolvable(
                interned(old(vm).interner@, entry.name@),
                old(vm).classes@[spec_known_class(old(vm).vips, class).0 as int].methods@,
                old(vm).fcts@,
                entry.name@,
            )
        },
    ensures
        final(vm).wf(),
        final(vm).interner@ == interned(old(vm).interner@, entry.name@),
        final(vm).fcts@ == (match entry.target {
            Target::Function => fcts_with_fct(
                final(vm).interner@,
                old(vm).sym@,
                old(vm).fcts@,
                entry.name@,
                entry.kind,
            ),
            Target::Method(class) => fcts_with_method(
                final(vm).interner@,
                old(vm).classes@[spec_known_class(old(vm).vips, class).0 as int].methods@,
                old(vm).fcts@,
                entry.name@,
                entry.kind,
            ),
        }),
        resolution_step(old(vm), final(vm)),
{
    match entry.target {
        Target::Function => internal_fct(vm, entry.name, entry.kind),
        Target::Method(class) => {
            let clsid = known_class(&vm.vips, class);
            internal_method(vm, clsid, entry.name, entry.kind)
        },
    }
}

/// Applies the entries of a table in their order.
pub fn register_all(vm: &mut VM, table: &Vec<Registration>)
    requires
        old(vm).wf(),
        registrable(old(vm), entries(table@), table@.len() as int),
    ensures
        final(vm).wf(),
        final(vm).interner@ == names_after(old(vm), entries(table@), table@.len() as int),
        final(vm).fcts@ == fcts_after(old(vm), entries(table@), table@.len() as int),
        resolution_step(old(vm), final(vm)),
{
    let ghost all = entries(table@);
    let n = table.len();
    let mut i: usize = 0;
    while i < n
        invariant
            i <= n,
            n == table@.len(),
            all == entries(table@),
            vm.wf(),
            registrable(old(vm), all, n as int),
            vm.interner@ == names_after(old(vm), all, i as int),
            vm.fcts@ == fcts_after(old(vm), all, i as int),
            resolution_step(old(vm), vm),
        decreases n - i,
    {
        proof {
            lemma_registrable(old(vm), all, n as int, i + 1);
            assert(all[i as int] == (table@[i as int].target, table@[i as int].name@, table@[i as int].kind));
        }
        let ghost before = *vm;
        register(vm, &table[i]);
        proof {
            assert forall|f: int| 0 <= f < old(vm).fcts@.len() implies (#[trigger] vm.fcts@[f]).name
                == old(vm).fcts@[f].name && vm.fcts@[f].internal == old(vm).fcts@[f].internal by {
                assert(before.fcts@[f].name == old(vm).fcts@[f].name);
            }
        }
        i += 1;
    }
}

/// The code that the compiler has for the functions of the program, in the order in which it is
/// given.
pub open spec fn functions_table() -> Seq<(Target, Seq<char>, FctKind)> {
    seq![
        (Target::Function, "fatalError"@, FctKind::Native(NativeFct::FatalError)),
        (Target::Function, "abort"@, FctKind::Native(NativeFct::Abort)),
        (Target::Function, "exit"@, FctKind::Native(NativeFct::Exit)),
        (Target::Function, "print"@, FctKind::Native(NativeFct::Print)),
        (Target::Function, "println"@, FctKind::Native(NativeFct::Println)),
        (Target::Function, "assert"@, FctKind::Builtin(Intrinsic::Assert)),
        (Target::Function, "debug"@, FctKind::Builtin(Intrinsic::Debug)),
        (Target::Function, "argc"@, FctKind::Native(NativeFct::Argc)),
        (Target::Function, "argv"@, FctKind::Native(NativeFct::Argv)),
        (Target::Function, "forceCollect"@, FctKind::Native(NativeFct::GcCollect)),
        (Target::Function, "timestamp"@, FctKind::Native(NativeFct::Timestamp)),
        (Target::Function, "forceMinorCollect"@, FctKind::Native(NativeFct::GcMinorCollect)),
        (Target::Function, "sleep"@, FctKind::Native(NativeFct::Sleep)),
        (Target::Function, "encodedBytecode"@, FctKind::Native(NativeFct::Bytecode)),
        (Target::Function, "call"@, FctKind::Native(NativeFct::Call)),
        (Target::Function, "defaultValue"@, FctKind::Builtin(Intrinsic::DefaultValue)),
    ]
}

fn functions_registrations() -> (table: Vec<Registration>)
    ensures
        entries(table@) == functions_table(),
{
    let table = vec![
        Registration { target: Target::Function, name: "fatalError", kind: FctKind::Native(NativeFct::FatalError) },
        Registration { target: Target::Function, name: "abort", kind: FctKind::Native(NativeFct::Abort) },
        Registration { target: Target::Function, name: "exit", kind: FctKind::Native(NativeFct::Exit) },
        Registration { target: Target::Function, name: "print", kind: FctKind::Native(NativeFct::Print) },
        Registration { target: Target::Function, name: "println", kind: FctKind::Native(NativeFct::Println) },
        Registration { target: Target::Function, name: "assert", kind: FctKind::Builtin(Intrinsic::Assert) },
        Registration { target: Target::Function, name: "debug", kind: FctKind::Builtin(Intrinsic::Debug) },
        Registration { target: Target::Function, name: "argc", kind: FctKind::Native(NativeFct::Argc) },
        Registration { target: Target::Function, name: "argv", kind: FctKind::Native(NativeFct::Argv) },
        Registration { target: Target::Function, name: "forceCollect", kind: FctKind::Native(NativeFct::GcCollect) },
        Registration { target: Target::Function, name: "timestamp", kind: FctKind::Native(NativeFct::Timestamp) },
        Registration { target: Target::Function, name: "forceMinorCollect", kind: FctKind::Native(NativeFct::GcMinorCollect) },
        Registration { target: Target::Function, name: "sleep", kind: FctKind::Native(NativeFct::Sleep) },
        Registration { target: Target::Function, name: "encodedBytecode", kind: FctKind::Native(NativeFct::Bytecode) },
        Registration { target: Target::Function, name: "call", kind: FctKind::Native(NativeFct::Call) },
        Registration { target: Target::Function, name: "defaultValue", kind: FctKind::Builtin(Intrinsic::DefaultValue) },
    ];
    assert(entries(table@) =~= functions_table());
    table
}

/// The code that the compiler has for the methods of `UInt8`, in the order in which it is
/// given.
pub open spec fn uint8_table() -> Seq<(Target, Seq<char>, FctKind)> {
    seq![
        (Target::Method(KnownClass::UInt8), "toString"@, FctKind::Native(NativeFct::ByteToString)),
        (Target::Method(KnownClass::UInt8), "toInt64"@, FctKind::Builtin(Intrinsic::ByteToInt64)),
        (Target::Method(KnownClass::UInt8), "toInt"@, FctKind::Builtin(Intrinsic::ByteToInt32)),
        (Target::Method(KnownClass::UInt8), "toChar"@, FctKind::Builtin(Intrinsic::ByteToChar)),
        (Target::Method(KnownClass::UInt8), "equals"@, FctKind::Builtin(Intrinsic::ByteEq)),
        (Target::Method(KnownClass::UInt8), "compareTo"@, FctKind::Builtin(Intrinsic::ByteCmp)),
        (Target::Method(KnownClass::UInt8), "not"@, FctKind::Builtin(Intrinsic::ByteNot)),
    ]
}

fn uint8_registrations() -> (table: Vec<Registration>)
    ensures
        entries(table@) == uint8_table(),
{
    let table = vec![
        Registration { target: Target::Method(KnownClass::UInt8), name: "toString", kind: FctKind::Native(NativeFct::ByteToString) },
        Registration { target: Target::Method(KnownClass::UInt8), name: "toInt64", kind: FctKind::Builtin(Intrinsic::ByteToInt64) },
        Registration { target: Target::Method(KnownClass::UInt8), name: "toInt", kind: FctKind::Builtin(Intrinsic::ByteToInt32) },
        Registration { target: Target::Method(KnownClass::UInt8), name: "toChar", kind: FctKind::Builtin(Intrinsic::ByteToChar) },
        Registration { target: Target::Method(KnownClass::UInt8), name: "equals", kind: FctKind::Builtin(Intrinsic::ByteEq) },
        Registration { target: Target::Method(KnownClass::UInt8), name: "compareTo", kind: FctKind::Builtin(Intrinsic::ByteCmp) },
        Registration { target: Target::Method(KnownClass::UInt8), name: "not", kind: FctKind::Builtin(Intrinsic::ByteNot) },
    ];
    assert(entries(table@) =~= uint8_table());
    table
}

/// The code that the compiler has for the methods of `Char`, in the order in which it is
/// given.
pub open spec fn char_table() -> Seq<(Target, Seq<char>, FctKind)> {
    seq![
        (Target::Method(KnownClass::Char), "toString"@, FctKind::Native(NativeFct::CharToString)),
        (Target::Method(KnownClass::Char), "toInt64"@, FctKind::Builtin(Intrinsic::CharToInt64)),
        (Target::Method(KnownClass::Char), "toInt"@, FctKind::Builtin(Intrinsic::CharToInt32)),
        (Target::Method(KnownClass::Char), "equals"@, FctKind::Builtin(Intrinsic::CharEq)),
        (Target::Method(KnownClass::Char), "compareTo"@, FctKind::Builtin(Intrinsic::CharCmp)),
    ]
}

fn char_registrations() -> (table: Vec<Registration>)
    ensures
        entries(table@) == char_table(),
{
    let table = vec![
        Registration { target: Target::Method(KnownClass::Char), name: "toString", kind: FctKind::Native(NativeFct::CharToString) },
        Registration { target: Target::Method(KnownClass::Char), name: "toInt64", kind: FctKind::Builtin(Intrinsic::CharToInt64) },
        Registration { target: Target::Method(KnownClass::Char), name: "toInt", kind: FctKind::Builtin(Intrinsic::CharToInt32) },
        Registration { target: Target::Method(KnownClass::Char), name: "equals", kind: FctKind::Builtin(Intrinsic::CharEq) },
        Registration { target: Target::Method(KnownClass::Char), name: "compareTo", kind: FctKind::Builtin(Intrinsic::CharCmp) },
    ];
    assert(entries(table@) =~= char_table());
    table
}

/// The code that the compiler has for the methods of `Int`, in the order in which it is
/// given.
pub open spec fn int_table() -> Seq<(Target, Seq<char>, FctKind)> {
    seq![
        (Target::Method(KnownClass::Int), "toUInt8"@, FctKind::Builtin(Intrinsic::Int32ToByte)),
        (Target::Method(KnownClass::Int), "toCharUnchecked"@, FctKind::Builtin(Intrinsic::Int32ToChar)),
        (Target::Method(KnownClass::Int), "toInt32"@, FctKind::Builtin(Intrinsic::IntPtrToInt32)),
        (Target::Method(KnownClass::Int), "toInt64"@, FctKind::Builtin(Intrinsic::Int32ToInt64)),
        (Target::Method(KnownClass::Int), "toString"@, FctKind::Native(NativeFct::IntToString)),
        (Target::Method(KnownClass::Int), "toFloat"@, FctKind::Builtin(Intrinsic::Int32ToFloat)),
        (Target::Method(KnownClass::Int), "toDouble"@, FctKind::Builtin(Intrinsic::Int32ToDouble)),
        (Target::Method(KnownClass::Int), "asFloat"@, FctKind::Builtin(Intrinsic::ReinterpretInt32AsFloat)),
        (Target::Method(KnownClass::Int), "equals"@, FctKind::Builtin(Intrinsic::Int32Eq)),
        (Target::Method(KnownClass::Int), "compareTo"@, FctKind::Builtin(Intrinsic::Int32Cmp)),
        (Target::Method(KnownClass::Int), "plus"@, FctKind::Builtin(Intrinsic::Int32Add)),
        (Target::Method(KnownClass::Int), "minus"@, FctKind::Builtin(Intrinsic::Int32Sub)),
        (Target::Method(KnownClass::Int), "times"@, FctKind::Builtin(Intrinsic::Int32Mul)),
        (Target::Method(KnownClass::Int), "div"@, FctKind::Builtin(Intrinsic::Int32Div)),
        (Target::Method(KnownClass::Int), "mod"@, FctKind::Builtin(Intrinsic::Int32Mod)),
        (Target::Method(KnownClass::Int), "bitwiseOr"@, FctKind::Builtin(Intrinsic::Int32Or)),
        (Target::Method(KnownClass::Int), "bitwiseAnd"@, FctKind::Builtin(Intrinsic::Int32And)),
        (Target::Method(KnownClass::Int), "bitwiseXor"@, FctKind::Builtin(Intrinsic::Int32Xor)),
        (Target::Method(KnownClass::Int), "shiftLeft"@, FctKind::Builtin(Intrinsic::Int32Shl)),
        (Target::Method(KnownClass::Int), "shiftRight"@, FctKind::Builtin(Intrinsic::Int32Shr)),
        (Target::Method(KnownClass::Int), "shiftRightSigned"@, FctKind::Builtin(Intrinsic::Int32Sar)),
        (Target::Method(KnownClass::Int), "rotateLeft"@, FctKind::Builtin(Intrinsic::Int32RotateLeft)),
        (Target::Method(KnownClass::Int), "rotateRight"@, FctKind::Builtin(Intrinsic::Int32RotateRight)),
        (Target::Method(KnownClass::Int), "unaryPlus"@, FctKind::Builtin(Intrinsic::Int32Plus)),
        (Target::Method(KnownClass::Int), "unaryMinus"@, FctKind::Builtin(Intrinsic::Int32Neg)),
        (Target::Method(KnownClass::Int), "not"@, FctKind::Builtin(Intrinsic::Int32Not)),
    ]
}

fn int_registrations() -> (table: Vec<Registration>)
    ensures
        entries(table@) == int_table(),
{
    let table = vec![
        Registration { target: Target::Method(KnownClass::Int), name: "toUInt8", kind: FctKind::Builtin(Intrinsic::Int32ToByte) },
        Registration { target: Target::Method(KnownClass::Int), name: "toCharUnchecked", kind: FctKind::Builtin(Intrinsic::Int32ToChar) },
        Registration { target: Target::Method(KnownClass::Int), name: "toInt32", kind: FctKind::Builtin(Intrinsic::IntPtrToInt32) },
        Registration { target: Target::Method(KnownClass::Int), name: "toInt64", kind: FctKind::Builtin(Intrinsic::Int32ToInt64) },
        Registration { target: Target::Method(KnownClass::Int), name: "toString", kind: FctKind::Native(NativeFct::IntToString) },
        Registration { target: Target::Method(KnownClass::Int), name: "toFloat", kind: FctKind::Builtin(Intrinsic::Int32ToFloat) },
        Registration { target: Target::Method(KnownClass::Int), name: "toDouble", kind: FctKind::Builtin(Intrinsic::Int32ToDouble) },
        Registration { target: Target::Method(KnownClass::Int), name: "asFloat", kind: FctKind::Builtin(Intrinsic::ReinterpretInt32AsFloat) },
        Registration { target: Target::Method(KnownClass::Int), name: "equals", kind: FctKind::Builtin(Intrinsic::Int32Eq) },
        Registration { target: Target::Method(KnownClass::Int), name: "compareTo", kind: FctKind::Builtin(Intrinsic::Int32Cmp) },
        Registration { target: Target::Method(KnownClass::Int), name: "plus", kind: FctKind::Builtin(Intrinsic::Int32Add) },
        Registration { target: Target::Method(KnownClass::Int), name: "minus", kind: FctKind::Builtin(Intrinsic::Int32Sub) },
        Registration { target: Target::Method(KnownClass::Int), name: "times", kind: FctKind::Builtin(Intrinsic::Int32Mul) },
        Registration { target: Target::Method(KnownClass::Int), name: "div", kind: FctKind::Builtin(Intrinsic::Int32Div) },
        Registration { target: Target::Method(KnownClass::Int), name: "mod", kind: FctKind::Builtin(Intrinsic::Int32Mod) },
        Registration { target: Target::Method(KnownClass::Int), name: "bitwiseOr", kind: FctKind::Builtin(Intrinsic::Int32Or) },
        Registration { target: Target::Method(KnownClass::Int), name: "bitwiseAnd", kind: FctKind::Builtin(Intrinsic::Int32And) },
        Registration { target: Target::Method(KnownClass::Int), name: "bitwiseXor", kind: FctKind::Builtin(Intrinsic::Int32Xor) },
        Registration { target: Target::Method(KnownClass::Int), name: "shiftLeft", kind: FctKind::Builtin(Intrinsic::Int32Shl) },
        Registration { target: Target::Method(KnownClass::Int), name: "shiftRight", kind: FctKind::Builtin(Intrinsic::Int32Shr) },
        Registration { target: Target::Method(KnownClass::Int), name: "shiftRightSigned", kind: FctKind::Builtin(Intrinsic::Int32Sar) },
        Registration { target: Target::Method(KnownClass::Int), name: "rotateLeft", kind: FctKind::Builtin(Intrinsic::Int32RotateLeft) },
        Registration { target: Target::Method(KnownClass::Int), name: "rotateRight", kind: FctKind::Builtin(Intrinsic::Int32RotateRight) },
        Registration { target: Target::Method(KnownClass::Int), name: "unaryPlus", kind: FctKind::Builtin(Intrinsic::Int32Plus) },
        Registration { target: Target::Method(KnownClass::Int), name: "unaryMinus", kind: FctKind::Builtin(Intrinsic::Int32Neg) },
        Registration { target: Target::Method(KnownClass::Int), name: "not", kind: FctKind::Builtin(Intrinsic::Int32Not) },
    ];
    assert(entries(table@) =~= int_table());
    table
}

/// The code that the compiler has for the methods of `Int32`, in the order in which it is
/// given.
pub open spec fn int32_table() -> Seq<(Target, Seq<char>, FctKind)> {
    seq![
        (Target::Method(KnownClass::Int32), "equals"@, FctKind::Builtin(Intrinsic::Int32Eq)),
        (Target::Method(KnownClass::Int32), "compareTo"@, FctKind::Builtin(Intrinsic::Int32Cmp)),
        (Target::Method(KnownClass::Int32), "plus"@, FctKind::Builtin(Intrinsic::Int32Add)),
        (Target::Method(KnownClass::Int32), "minus"@, FctKind::Builtin(Intrinsic::Int32Sub)),
        (Target::Method(KnownClass::Int32), "times"@, FctKind::Builtin(Intrinsic::Int32Mul)),
        (Target::Method(KnownClass::Int32), "div"@, FctKind::Builtin(Intrinsic::Int32Div)),
        (Target::Method(KnownClass::Int32), "mod"@, FctKind::Builtin(Intrinsic::Int32Mod)),
        (Target::Method(KnownClass::Int32), "bitwiseOr"@, FctKind::Builtin(Intrinsic::Int32Or)),
        (Target::Method(KnownClass::Int32), "bitwiseAnd"@, FctKind::Builtin(Intrinsic::Int32And)),
        (Target::Method(KnownClass::Int32), "bitwiseXor"@, FctKind::Builtin(Intrinsic::Int32Xor)),
        (Target::Method(KnownClass::Int32), "shiftLeft"@, FctKind::Builtin(Intrinsic::Int32Shl)),
        (Target::Method(KnownClass::Int32), "shiftRight"@, FctKind::Builtin(Intrinsic::Int32Shr)),
        (Target::Method(KnownClass::Int32), "shiftRightSigned"@, FctKind::Builtin(Intrinsic::Int32Sar)),
        (Target::Method(KnownClass::Int32), "rotateLeft"@, FctKind::Builtin(Intrinsic::Int32RotateLeft)),
        (Target::Method(KnownClass::Int32), "rotateRight"@, FctKind::Builtin(Intrinsic::Int32RotateRight)),
        (Target::Method(KnownClass::Int32), "unaryPlus"@, FctKind::Builtin(Intrinsic::Int32Plus)),
        (Target::Method(KnownClass::Int32), "unaryMinus"@, FctKind::Builtin(Intrinsic::Int32Neg)),
        (Target::Method(KnownClass::Int32), "not"@, FctKind::Builtin(Intrinsic::Int32Not)),
    ]
}

fn int32_registrations() -> (table: Vec<Registration>)
    ensures
        entries(table@) == int32_table(),
{
    let table = vec![
        Registration { target: Target::Method(KnownClass::Int32), name: "equals", kind: FctKind::Builtin(Intrinsic::Int32Eq) },
        Registration { target: Target::Method(KnownClass::Int32), name: "compareTo", kind: FctKind::Builtin(Intrinsic::Int32Cmp) },
        Registration { target: Target::Method(KnownClass::Int32), name: "plus", kind: FctKind::Builtin(Intrinsic::Int32Add) },
        Registration { target: Target::Method(KnownClass::Int32), name: "minus", kind: FctKind::Builtin(Intrinsic::Int32Sub) },
        Registration { target: Target::Method(KnownClass::Int32), name: "times", kind: FctKind::Builtin(Intrinsic::Int32Mul) },
        Registration { target: Target::Method(KnownClass::Int32), name: "div", kind: FctKind::Builtin(Intrinsic::Int32Div) },
        Registration { target: Target::Method(KnownClass::Int32), name: "mod", kind: FctKind::Builtin(Intrinsic::Int32Mod) },
        Registration { target: Target::Method(KnownClass::Int32), name: "bitwiseOr", kind: FctKind::Builtin(Intrinsic::Int32Or) },
        Registration { target: Target::Method(KnownClass::Int32), name: "bitwiseAnd", kind: FctKind::Builtin(Intrinsic::Int32And) },
        Registration { target: Target::Method(KnownClass::Int32), name: "bitwiseXor", kind: FctKind::Builtin(Intrinsic::Int32Xor) },
        Registration { target: Target::Method(KnownClass::Int32), name: "shiftLeft", kind: FctKind::Builtin(Intrinsic::Int32Shl) },
        Registration { target: Target::Method(KnownClass::Int32), name: "shiftRight", kind: FctKind::Builtin(Intrinsic::Int32Shr) },
        Registration { target: Target::Method(KnownClass::Int32), name: "shiftRightSigned", kind: FctKind::Builtin(Intrinsic::Int32Sar) },
        Registration { target: Target::Method(KnownClass::Int32), name: "rotateLeft", kind: FctKind::Builtin(Intrinsic::Int32RotateLeft) },
        Registration { target: Target::Method(KnownClass::Int32), name: "rotateRight", kind: FctKind::Builtin(Intrinsic::Int32RotateRight) },
        Registration { target: Target::Method(KnownClass::Int32), name: "unaryPlus", kind: FctKind::Builtin(Intrinsic::Int32Plus) },
        Registration { target: Target::Method(KnownClass::Int32), name: "unaryMinus", kind: FctKind::Builtin(Intrinsic::Int32Neg) },
        Registration { target: Target::Method(KnownClass::Int32), name: "not", kind: FctKind::Builtin(Intrinsic::Int32Not) },
    ];
    assert(entries(table@) =~= int32_table());
    table
}

/// The code that the compiler has for the methods of `Int64`, in the order in which it is
/// given.
pub open spec fn int64_table() -> Seq<(Target, Seq<char>, FctKind)> {
    seq![
        (Target::Method(KnownClass::Int64), "toString"@, FctKind::Native(NativeFct::LongToString)),
        (Target::Method(KnownClass::Int64), "toCharUnchecked"@, FctKind::Builtin(Intrinsic::Int64ToChar)),
        (Target::Method(KnownClass::Int64), "toInt"@, FctKind::Builtin(Intrinsic::Int64ToInt32)),
        (Target::Method(KnownClass::Int64), "toUInt8"@, FctKind::Builtin(Intrinsic::Int64ToByte)),
        (Target::Method(KnownClass::Int64), "toFloat"@, FctKind::Builtin(Intrinsic::Int64ToFloat)),
        (Target::Method(KnownClass::Int64), "toDouble"@, FctKind::Builtin(Intrinsic::Int64ToDouble)),
        (Target::Method(KnownClass::Int64), "asDouble"@, FctKind::Builtin(Intrinsic::ReinterpretInt64AsDouble)),
        (Target::Method(KnownClass::Int64), "equals"@, FctKind::Builtin(Intrinsic::Int64Eq)),
        (Target::Method(KnownClass::Int64), "compareTo"@, FctKind::Builtin(Intrinsic::Int64Cmp)),
        (Target::Method(KnownClass::Int64), "plus"@, FctKind::Builtin(Intrinsic::Int64Add)),
        (Target::Method(KnownClass::Int64), "minus"@, FctKind::Builtin(Intrinsic::Int64Sub)),
        (Target::Method(KnownClass::Int64), "times"@, FctKind::Builtin(Intrinsic::Int64Mul)),
        (Target::Method(KnownClass::Int64), "div"@, FctKind::Builtin(Intrinsic::Int64Div)),
        (Target::Method(KnownClass::Int64), "mod"@, FctKind::Builtin(Intrinsic::Int64Mod)),
        (Target::Method(KnownClass::Int64), "bitwiseOr"@, FctKind::Builtin(Intrinsic::Int64Or)),
        (Target::Method(KnownClass::Int64), "bitwiseAnd"@, FctKind::Builtin(Intrinsic::Int64And)),
        (Target::Method(KnownClass::Int64), "bitwiseXor"@, FctKind::Builtin(Intrinsic::Int64Xor)),
        (Target::Method(KnownClass::Int64), "shiftLeft"@, FctKind::Builtin(Intrinsic::Int64Shl)),
        (Target::Method(KnownClass::Int64), "shiftRight"@, FctKind::Builtin(Intrinsic::Int64Shr)),
        (Target::Method(KnownClass::Int64), "shiftRightSigned"@, FctKind::Builtin(Intrinsic::Int64Sar)),
        (Target::Method(KnownClass::Int64), "rotateLeft"@, FctKind::Builtin(Intrinsic::Int64RotateLeft)),
        (Target::Method(KnownClass::Int64), "rotateRight"@, FctKind::Builtin(Intrinsic::Int64RotateRight)),
        (Target::Method(KnownClass::Int64), "unaryPlus"@, FctKind::Builtin(Intrinsic::Int64Plus)),
        (Target::Method(KnownClass::Int64), "unaryMinus"@, FctKind::Builtin(Intrinsic::Int64Neg)),
        (Target::Method(KnownClass::Int64), "not"@, FctKind::Builtin(Intrinsic::Int64Not)),
    ]
}

fn int64_registrations() -> (table: Vec<Registration>)
    ensures
        entries(table@) == int64_table(),
{
    let table = vec![
        Registration { target: Target::Method(KnownClass::Int64), name: "toString", kind: FctKind::Native(NativeFct::LongToString) },
        Registration { target: Target::Method(KnownClass::Int64), name: "toCharUnchecked", kind: FctKind::Builtin(Intrinsic::Int64ToChar) },
        Registration { target: Target::Method(KnownClass::Int64), name: "toInt", kind: FctKind::Builtin(Intrinsic::Int64ToInt32) },
        Registration { target: Target::Method(KnownClass::Int64), name: "toUInt8", kind: FctKind::Builtin(Intrinsic::Int64ToByte) },
        Registration { target: Target::Method(KnownClass::Int64), name: "toFloat", kind: FctKind::Builtin(Intrinsic::Int64ToFloat) },
        Registration { target: Target::Method(KnownClass::Int64), name: "toDouble", kind: FctKind::Builtin(Intrinsic::Int64ToDouble) },
        Registration { target: Target::Method(KnownClass::Int64), name: "asDouble", kind: FctKind::Builtin(Intrinsic::ReinterpretInt64AsDouble) },
        Registration { target: Target::Method(KnownClass::Int64), name: "equals", kind: FctKind::Builtin(Intrinsic::Int64Eq) },
        Registration { target: Target::Method(KnownClass::Int64), name: "compareTo", kind: FctKind::Builtin(Intrinsic::Int64Cmp) },
        Registration { target: Target::Method(KnownClass::Int64), name: "plus", kind: FctKind::Builtin(Intrinsic::Int64Add) },
        Registration { target: Target::Method(KnownClass::Int64), name: "minus", kind: FctKind::Builtin(Intrinsic::Int64Sub) },
        Registration { target: Target::Method(KnownClass::Int64), name: "times", kind: FctKind::Builtin(Intrinsic::Int64Mul) },
        Registration { target: Target::Method(KnownClass::Int64), name: "div", kind: FctKind::Builtin(Intrinsic::Int64Div) },
        Registration { target: Target::Method(KnownClass::Int64), name: "mod", kind: FctKind::Builtin(Intrinsic::Int64Mod) },
        Registration { target: Target::Method(KnownClass::Int64), name: "bitwiseOr", kind: FctKind::Builtin(Intrinsic::Int64Or) },
        Registration { target: Target::Method(KnownClass::Int64), name: "bitwiseAnd", kind: FctKind::Builtin(Intrinsic::Int64And) },
        Registration { target: Target::Method(KnownClass::Int64), name: "bitwiseXor", kind: FctKind::Builtin(Intrinsic::Int64Xor) },
        Registration { target: Target::Method(KnownClass::Int64), name: "shiftLeft", kind: FctKind::Builtin(Intrinsic::Int64Shl) },
        Registration { target: Target::Method(KnownClass::Int64), name: "shiftRight", kind: FctKind::Builtin(Intrinsic::Int64Shr) },
        Registration { target: Target::Method(KnownClass::Int64), name: "shiftRightSigned", kind: FctKind::Builtin(Intrinsic::Int64Sar) },
        Registration { target: Target::Method(KnownClass::Int64), name: "rotateLeft", kind: FctKind::Builtin(Intrinsic::Int64RotateLeft) },
        Registration { target: Target::Method(KnownClass::Int64), name: "rotateRight", kind: FctKind::Builtin(Intrinsic::Int64RotateRight) },
        Registration { target: Target::Method(KnownClass::Int64), name: "unaryPlus", kind: FctKind::Builtin(Intrinsic::Int64Plus) },
        Registration { target: Target::Method(KnownClass::Int64), name: "unaryMinus", kind: FctKind::Builtin(Intrinsic::Int64Neg) },
        Registration { target: Target::Method(KnownClass::Int64), name: "not", kind: FctKind::Builtin(Intrinsic::Int64Not) },
    ];
    assert(entries(table@) =~= int64_table());
    table
}

/// The code that the compiler has for the methods of `Bool`, in the order in which it is
/// given.
pub open spec fn bool_table() -> Seq<(Target, Seq<char>, FctKind)> {
    seq![
        (Target::Method(KnownClass::Bool), "toInt"@, FctKind::Builtin(Intrinsic::BoolToInt32)),
        (Target::Method(KnownClass::Bool), "toInt64"@, FctKind::Builtin(Intrinsic::BoolToInt64)),
        (Target::Method(KnownClass::Bool), "equals"@, FctKind::Builtin(Intrinsic::BoolEq)),
        (Target::Method(KnownClass::Bool), "not"@, FctKind::Builtin(Intrinsic::BoolNot)),
    ]
}

fn bool_registrations() -> (table: Vec<Registration>)
    ensures
        entries(table@) == bool_table(),
{
    let table = vec![
        Registration { target: Target::Method(KnownClass::Bool), name: "toInt", kind: FctKind::Builtin(Intrinsic::BoolToInt32) },
        Registration { target: Target::Method(KnownClass::Bool), name: "toInt64", kind: FctKind::Builtin(Intrinsic::BoolToInt64) },
        Registration { target: Target::Method(KnownClass::Bool), name: "equals", kind: FctKind::Builtin(Intrinsic::BoolEq) },
        Registration { target: Target::Method(KnownClass::Bool), name: "not", kind: FctKind::Builtin(Intrinsic::BoolNot) },
    ];
    assert(entries(table@) =~= bool_table());
    table
}

/// The code that the compiler has for the methods of `String`, in the order in which it is
/// given.
pub open spec fn string_table() -> Seq<(Target, Seq<char>, FctKind)> {
    seq![
        (Target::Method(KnownClass::String), "compareTo"@, FctKind::Native(NativeFct::Strcmp)),
        (Target::Method(KnownClass::String), "toIntSuccess"@, FctKind::Native(NativeFct::StrToIntSuccess)),
        (Target::Method(KnownClass::String), "toInt64Success"@, FctKind::Native(NativeFct::StrToLongSuccess)),
        (Target::Method(KnownClass::String), "toIntOrZero"@, FctKind::Native(NativeFct::StrToInt)),
        (Target::Method(KnownClass::String), "toInt64OrZero"@, FctKind::Native(NativeFct::StrToLong)),
        (Target::Method(KnownClass::String), "plus"@, FctKind::Native(NativeFct::Strcat)),
        (Target::Method(KnownClass::String), "length"@, FctKind::Builtin(Intrinsic::StrLen)),
        (Target::Method(KnownClass::String), "getByte"@, FctKind::Builtin(Intrinsic::StrGet)),
        (Target::Method(KnownClass::String), "clone"@, FctKind::Native(NativeFct::StrClone)),
        (Target::Method(KnownClass::String), "fromBytesPartOrNull"@, FctKind::Native(NativeFct::StrFromBytes)),
        (Target::Method(KnownClass::String), "fromStringPartOrNull"@, FctKind::Native(NativeFct::StrFromBytes)),
    ]
}

fn string_registrations() -> (table: Vec<Registration>)
    ensures
        entries(table@) == string_table(),
{
    let table = vec![
        Registration { target: Target::Method(KnownClass::String), name: "compareTo", kind: FctKind::Native(NativeFct::Strcmp) },
        Registration { target: Target::Method(KnownClass::String), name: "toIntSuccess", kind: FctKind::Native(NativeFct::StrToIntSuccess) },
        Registration { target: Target::Method(KnownClass::String), name: "toInt64Success", kind: FctKind::Native(NativeFct::StrToLongSuccess) },
        Registration { target: Target::Method(KnownClass::String), name: "toIntOrZero", kind: FctKind::Native(NativeFct::StrToInt) },
        Registration { target: Target::Method(KnownClass::String), name: "toInt64OrZero", kind: FctKind::Native(NativeFct::StrToLong) },
        Registration { target: Target::Method(KnownClass::String), name: "plus", kind: FctKind::Native(NativeFct::Strcat) },
        Registration { target: Target::Method(KnownClass::String), name: "length", kind: FctKind::Builtin(Intrinsic::StrLen) },
        Registration { target: Target::Method(KnownClass::String), name: "getByte", kind: FctKind::Builtin(Intrinsic::StrGet) },
        Registration { target: Target::Method(KnownClass::String), name: "clone", kind: FctKind::Native(NativeFct::StrClone) },
        Registration { target: Target::Method(KnownClass::String), name: "fromBytesPartOrNull", kind: FctKind::Native(NativeFct::StrFromBytes) },
        Registration { target: Target::Method(KnownClass::String), name: "fromStringPartOrNull", kind: FctKind::Native(NativeFct::StrFromBytes) },
    ];
    assert(entries(table@) =~= string_table());
    table
}

/// The code that the compiler has for the methods of `Float`, in the order in which it is
/// given.
pub open spec fn float_table() -> Seq<(Target, Seq<char>, FctKind)> {
    seq![
        (Target::Method(KnownClass::Float), "toString"@, FctKind::Native(NativeFct::FloatToString)),
        (Target::Method(KnownClass::Float), "toInt"@, FctKind::Builtin(Intrinsic::FloatToInt32)),
        (Target::Method(KnownClass::Float), "toInt64"@, FctKind::Builtin(Intrinsic::FloatToInt64)),
        (Target::Method(KnownClass::Float), "toDouble"@, FctKind::Builtin(Intrinsic::PromoteFloatToDouble)),
        (Target::Method(KnownClass::Float), "asInt"@, FctKind::Builtin(Intrinsic::ReinterpretFloatAsInt)),
        (Target::Method(KnownClass::Float), "equals"@, FctKind::Builtin(Intrinsic::FloatEq)),
        (Target::Method(KnownClass::Float), "compareTo"@, FctKind::Builtin(Intrinsic::FloatCmp)),
        (Target::Method(KnownClass::Float), "plus"@, FctKind::Builtin(Intrinsic::FloatAdd)),
        (Target::Method(KnownClass::Float), "minus"@, FctKind::Builtin(Intrinsic::FloatSub)),
        (Target::Method(KnownClass::Float), "times"@, FctKind::Builtin(Intrinsic::FloatMul)),
        (Target::Method(KnownClass::Float), "div"@, FctKind::Builtin(Intrinsic::FloatDiv)),
        (Target::Method(KnownClass::Float), "unaryPlus"@, FctKind::Builtin(Intrinsic::FloatPlus)),
        (Target::Method(KnownClass::Float), "unaryMinus"@, FctKind::Builtin(Intrinsic::FloatNeg)),
        (Target::Method(KnownClass::Float), "isNan"@, FctKind::Builtin(Intrinsic::FloatIsNan)),
        (Target::Method(KnownClass::Float), "sqrt"@, FctKind::Builtin(Intrinsic::FloatSqrt)),
    ]
}

fn float_registrations() -> (table: Vec<Registration>)
    ensures
        entries(table@) == float_table(),
{
    let table = vec![
        Registration { target: Target::Method(KnownClass::Float), name: "toString", kind: FctKind::Native(NativeFct::FloatToString) },
        Registration { target: Target::Method(KnownClass::Float), name: "toInt", kind: FctKind::Builtin(Intrinsic::FloatToInt32) },
        Registration { target: Target::Method(KnownClass::Float), name: "toInt64", kind: FctKind::Builtin(Intrinsic::FloatToInt64) },
        Registration { target: Target::Method(KnownClass::Float), name: "toDouble", kind: FctKind::Builtin(Intrinsic::PromoteFloatToDouble) },
        Registration { target: Target::Method(KnownClass::Float), name: "asInt", kind: FctKind::Builtin(Intrinsic::ReinterpretFloatAsInt) },
        Registration { target: Target::Method(KnownClass::Float), name: "equals", kind: FctKind::Builtin(Intrinsic::FloatEq) },
        Registration { target: Target::Method(KnownClass::Float), name: "compareTo", kind: FctKind::Builtin(Intrinsic::FloatCmp) },
        Registration { target: Target::Method(KnownClass::Float), name: "plus", kind: FctKind::Builtin(Intrinsic::FloatAdd) },
        Registration { target: Target::Method(KnownClass::Float), name: "minus", kind: FctKind::Builtin(Intrinsic::FloatSub) },
        Registration { target: Target::Method(KnownClass::Float), name: "times", kind: FctKind::Builtin(Intrinsic::FloatMul) },
        Registration { target: Target::Method(KnownClass::Float), name: "div", kind: FctKind::Builtin(Intrinsic::FloatDiv) },
        Registration { target: Target::Method(KnownClass::Float), name: "unaryPlus", kind: FctKind::Builtin(Intrinsic::FloatPlus) },
        Registration { target: Target::Method(KnownClass::Float), name: "unaryMinus", kind: FctKind::Builtin(Intrinsic::FloatNeg) },
        Registration { target: Target::Method(KnownClass::Float), name: "isNan", kind: FctKind::Builtin(Intrinsic::FloatIsNan) },
        Registration { target: Target::Method(KnownClass::Float), name: "sqrt", kind: FctKind::Builtin(Intrinsic::FloatSqrt) },
    ];
    assert(entries(table@) =~= float_table());
    table
}

/// The code that the compiler has for the methods of `Double`, in the order in which it is
/// given.
pub open spec fn double_table() -> Seq<(Target, Seq<char>, FctKind)> {
    seq![
        (Target::Method(KnownClass::Double), "toString"@, FctKind::Native(NativeFct::DoubleToString)),
        (Target::Method(KnownClass::Double), "toInt"@, FctKind::Builtin(Intrinsic::DoubleToInt32)),
        (Target::Method(KnownClass::Double), "toInt64"@, FctKind::Builtin(Intrinsic::DoubleToInt64)),
        (Target::Method(KnownClass::Double), "toFloat"@, FctKind::Builtin(Intrinsic::DemoteDoubleToFloat)),
        (Target::Method(KnownClass::Double), "asInt64"@, FctKind::Builtin(Intrinsic::ReinterpretDoubleAsInt64)),
        (Target::Method(KnownClass::Double), "equals"@, FctKind::Builtin(Intrinsic::DoubleEq)),
        (Target::Method(KnownClass::Double), "compareTo"@, FctKind::Builtin(Intrinsic::DoubleCmp)),
        (Target::Method(KnownClass::Double), "plus"@, FctKind::Builtin(Intrinsic::DoubleAdd)),
        (Target::Method(KnownClass::Double), "minus"@, FctKind::Builtin(Intrinsic::DoubleSub)),
        (Target::Method(KnownClass::Double), "times"@, FctKind::Builtin(Intrinsic::DoubleMul)),
        (Target::Method(KnownClass::Double), "div"@, FctKind::Builtin(Intrinsic::DoubleDiv)),
        (Target::Method(KnownClass::Double), "unaryPlus"@, FctKind::Builtin(Intrinsic::DoublePlus)),
        (Target::Method(KnownClass::Double), "unaryMinus"@, FctKind::Builtin(Intrinsic::DoubleNeg)),
        (Target::Method(KnownClass::Double), "isNan"@, FctKind::Builtin(Intrinsic::DoubleIsNan)),
        (Target::Method(KnownClass::Double), "sqrt"@, FctKind::Builtin(Intrinsic::DoubleSqrt)),
    ]
}

fn double_registrations() -> (table: Vec<Registration>)
    ensures
        entries(table@) == double_table(),
{
    let table = vec![
        Registration { target: Target::Method(KnownClass::Double), name: "toString", kind: FctKind::Native(NativeFct::DoubleToString) },
        Registration { target: Target::Method(KnownClass::Double), name: "toInt", kind: FctKind::Builtin(Intrinsic::DoubleToInt32) },
        Registration { target: Target::Method(KnownClass::Double), name: "toInt64", kind: FctKind::Builtin(Intrinsic::DoubleToInt64) },
        Registration { target: Target::Method(KnownClass::Double), name: "toFloat", kind: FctKind::Builtin(Intrinsic::DemoteDoubleToFloat) },
        Registration { target: Target::Method(KnownClass::Double), name: "asInt64", kind: FctKind::Builtin(Intrinsic::ReinterpretDoubleAsInt64) },
        Registration { target: Target::Method(KnownClass::Double), name: "equals", kind: FctKind::Builtin(Intrinsic::DoubleEq) },
        Registration { target: Target::Method(KnownClass::Double), name: "compareTo", kind: FctKind::Builtin(Intrinsic::DoubleCmp) },
        Registration { target: Target::Method(KnownClass::Double), name: "plus", kind: FctKind::Builtin(Intrinsic::DoubleAdd) },
        Registration { target: Target::Method(KnownClass::Double), name: "minus", kind: FctKind::Builtin(Intrinsic::DoubleSub) },
        Registration { target: Target::Method(KnownClass::Double), name: "times", kind: FctKind::Builtin(Intrinsic::DoubleMul) },
        Registration { target: Target::Method(KnownClass::Double), name: "div", kind: FctKind::Builtin(Intrinsic::DoubleDiv) },
        Registration { target: Target::Method(KnownClass::Double), name: "unaryPlus", kind: FctKind::Builtin(Intrinsic::DoublePlus) },
        Registration { target: Target::Method(KnownClass::Double), name: "unaryMinus", kind: FctKind::Builtin(Intrinsic::DoubleNeg) },
        Registration { target: Target::Method(KnownClass::Double), name: "isNan", kind: FctKind::Builtin(Intrinsic::DoubleIsNan) },
        Registration { target: Target::Method(KnownClass::Double), name: "sqrt", kind: FctKind::Builtin(Intrinsic::DoubleSqrt) },
    ];
    assert(entries(table@) =~= double_table());
    table
}

/// The code that the compiler has for the methods of `Array`, in the order in which it is
/// given.
pub open spec fn array_table() -> Seq<(Target, Seq<char>, FctKind)> {
    seq![
        (Target::Method(KnownClass::Array), "length"@, FctKind::Builtin(Intrinsic::GenericArrayLen)),
        (Target::Method(KnownClass::Array), "get"@, FctKind::Builtin(Intrinsic::GenericArrayGet)),
        (Target::Method(KnownClass::Array), "set"@, FctKind::Builtin(Intrinsic::GenericArraySet)),
    ]
}

fn array_registrations() -> (table: Vec<Registration>)
    ensures
        entries(table@) == array_table(),
{
    let table = vec![
        Registration { target: Target::Method(KnownClass::Array), name: "length", kind: FctKind::Builtin(Intrinsic::GenericArrayLen) },
        Registration { target: Target::Method(KnownClass::Array), name: "get", kind: FctKind::Builtin(Intrinsic::GenericArrayGet) },
        Registration { target: Target::Method(KnownClass::Array), name: "set", kind: FctKind::Builtin(Intrinsic::GenericArraySet) },
    ];
    assert(entries(table@) =~= array_table());
    table
}

/// The code that the compiler has for the methods of `Stacktrace`, in the order in which it is
/// given.
pub open spec fn stacktrace_table() -> Seq<(Target, Seq<char>, FctKind)> {
    seq![
        (Target::Method(KnownClass::Stacktrace), "retrieveStacktrace"@, FctKind::Native(NativeFct::RetrieveStackTrace)),
        (Target::Method(KnownClass::Stacktrace), "getStacktraceElement"@, FctKind::Native(NativeFct::StackElement)),
    ]
}

fn stacktrace_registrations() -> (table: Vec<Registration>)
    ensures
        entries(table@) == stacktrace_table(),
{
    let table = vec![
        Registration { target: Target::Method(KnownClass::Stacktrace), name: "retrieveStacktrace", kind: FctKind::Native(NativeFct::RetrieveStackTrace) },
        Registration { target: Target::Method(KnownClass::Stacktrace), name: "getStacktraceElement", kind: FctKind::Native(NativeFct::StackElement) },
    ];
    assert(entries(table@) =~= stacktrace_table());
    table
}

/// The code that the compiler has for the functions of the program and for
/// the methods of the known classes.
pub open spec fn internal_function_table() -> Seq<(Target, Seq<char>, FctKind)> {
    functions_table() + uint8_table() + char_table() + int_table() + int32_table() + int64_table() + bool_table() + string_table() + float_table() + double_table() + array_table() + stacktrace_table()
}

pub fn internal_function_registrations() -> (table: Vec<Registration>)
    ensures
        entries(table@) == internal_function_table(),
{
    let mut table = functions_registrations();
    let mut part = uint8_registrations();
    let ghost before = table@;
    let ghost added = part@;
    table.append(&mut part);
    proof {
        assert(entries(table@) =~= entries(before) + entries(added));
    }
    let mut part = char_registrations();
    let ghost before = table@;
    let ghost added = part@;
    table.append(&mut part);
    proof {
        assert(entries(table@) =~= entries(before) + entries(added));
    }
    let mut part = int_registrations();
    let ghost before = table@;
    let ghost added = part@;
    table.append(&mut part);
    proof {
        assert(entries(table@) =~= entries(before) + entries(added));
    }
    let mut part = int32_registrations();
    let ghost before = table@;
    let ghost added = part@;
    table.append(&mut part);
    proof {
        assert(entries(table@) =~= entries(before) + entries(added));
    }
    let mut part = int64_registrations();
    let ghost before = table@;
    let ghost added = part@;
    table.append(&mut part);
    proof {
        assert(entries(table@) =~= entries(before) + entries(added));
    }
    let mut part = bool_registrations();
    let ghost before = table@;
    let ghost added = part@;
    table.append(&mut part);
    proof {
        assert(entries(table@) =~= entries(before) + entries(added));
    }
    let mut part = string_registrations();
    let ghost before = table@;
    let ghost added = part@;
    table.append(&mut part);
    proof {
        assert(entries(table@) =~= entries(before) + entries(added));
    }
    let mut part = float_registrations();
    let ghost before = table@;
    let ghost added = part@;
    table.append(&mut part);
    proof {
        assert(entries(table@) =~= entries(before) + entries(added));
    }
    let mut part = double_registrations();
    let ghost before = table@;
    let ghost added = part@;
    table.append(&mut part);
    proof {
        assert(entries(table@) =~= entries(before) + entries(added));
    }
    let mut part = array_registrations();
    let ghost before = table@;
    let ghost added = part@;
    table.append(&mut part);
    proof {
        assert(entries(table@) =~= entries(before) + entries(added));
    }
    let mut part = stacktrace_registrations();
    let ghost before = table@;
    let ghost added = part@;
    table.append(&mut part);
    proof {
        assert(entries(table@) =~= entries(before) + entries(added));
    }
    table
}

/// The intrinsics that depend on what the processor can do: counting bits
/// (`popcnt`), leading zeros (`lzcnt`) and trailing zeros (`tzcnt`), for
/// `Int` and then for `Int64`.
pub open spec fn conditional_table(popcnt: bool, lzcnt: bool, tzcnt: bool) -> Seq<
    (Target, Seq<char>, FctKind),
> {
    Seq::empty() + (if popcnt {
        seq![
            (Target::Method(KnownClass::Int), "countZeroBits"@, FctKind::Builtin(Intrinsic::Int32CountZeroBits)),
            (Target::Method(KnownClass::Int), "countOneBits"@, FctKind::Builtin(Intrinsic::Int32CountOneBits)),
        ]
    } else {
        Seq::empty()
    }) + (if lzcnt {
        seq![
            (Target::Method(KnownClass::Int), "countZeroBitsLeading"@, FctKind::Builtin(Intrinsic::Int32CountZeroBitsLeading)),
            (Target::Method(KnownClass::Int), "countOneBitsLeading"@, FctKind::Builtin(Intrinsic::Int32CountOneBitsLeading)),
        ]
    } else {
        Seq::empty()
    }) + (if tzcnt {
        seq![
            (Target::Method(KnownClass::Int), "countZeroBitsTrailing"@, FctKind::Builtin(Intrinsic::Int32CountZeroBitsTrailing)),
            (Target::Method(KnownClass::Int), "countOneBitsTrailing"@, FctKind::Builtin(Intrinsic::Int32CountOneBitsTrailing)),
        ]
    } else {
        Seq::empty()
    }) + (if popcnt {
        seq![
            (Target::Method(KnownClass::Int64), "countZeroBits"@, FctKind::Builtin(Intrinsic::Int64CountZeroBits)),
            (Target::Method(KnownClass::Int64), "countOneBits"@, FctKind::Builtin(Intrinsic::Int64CountOneBits)),
        ]
    } else {
        Seq::empty()
    }) + (if lzcnt {
        seq![
            (Target::Method(KnownClass::Int64), "countZeroBitsLeading"@, FctKind::Builtin(Intrinsic::Int64CountZeroBitsLeading)),
            (Target::Method(KnownClass::Int64), "countOneBitsLeading"@, FctKind::Builtin(Intrinsic::Int64CountOneBitsLeading)),
        ]
    } else {
        Seq::empty()
    }) + (if tzcnt {
        seq![
            (Target::Method(KnownClass::Int64), "countZeroBitsTrailing"@, FctKind::Builtin(Intrinsic::Int64CountZeroBitsTrailing)),
            (Target::Method(KnownClass::Int64), "countOneBitsTrailing"@, FctKind::Builtin(Intrinsic::Int64CountOneBitsTrailing)),
        ]
    } else {
        Seq::empty()
    })
}

pub fn conditional_registrations(popcnt: bool, lzcnt: bool, tzcnt: bool) -> (table: Vec<
    Registration,
>)
    ensures
        entries(table@) == conditional_table(popcnt, lzcnt, tzcnt),
{
    let mut table: Vec<Registration> = Vec::new();
    assert(entries(table@) =~= Seq::empty());
    let ghost before = table@;
    if popcnt {
        table.push(
            Registration { target: Target::Method(KnownClass::Int), name: "countZeroBits", kind: FctKind::Builtin(Intrinsic::Int32CountZeroBits) },
        );
        table.push(
            Registration { target: Target::Method(KnownClass::Int), name: "countOneBits", kind: FctKind::Builtin(Intrinsic::Int32CountOneBits) },
        );
    }
    proof {
        assert(entries(table@) =~= entries(before) + (if popcnt {
            seq![
                (Target::Method(KnownClass::Int), "countZeroBits"@, FctKind::Builtin(Intrinsic::Int32CountZeroBits)),
                (Target::Method(KnownClass::Int), "countOneBits"@, FctKind::Builtin(Intrinsic::Int32CountOneBits)),
            ]
        } else {
            Seq::empty()
        }));
    }

    let ghost before = table@;
    if lzcnt {
        table.push(
            Registration { target: Target::Method(KnownClass::Int), name: "countZeroBitsLeading", kind: FctKind::Builtin(Intrinsic::Int32CountZeroBitsLeading) },
        );
        table.push(
            Registration { target: Target::Method(KnownClass::Int), name: "countOneBitsLeading", kind: FctKind::Builtin(Intrinsic::Int32CountOneBitsLeading) },
        );
    }
    proof {
        assert(entries(table@) =~= entries(before) + (if lzcnt {
            seq![
                (Target::Method(KnownClass::Int), "countZeroBitsLeading"@, FctKind::Builtin(Intrinsic::Int32CountZeroBitsLeading)),
                (Target::Method(KnownClass::Int), "countOneBitsLeading"@, FctKind::Builtin(Intrinsic::Int32CountOneBitsLeading)),
            ]
        } else {
            Seq::empty()
        }));
    }

    let ghost before = table@;
    if tzcnt {
        table.push(
            Registration { target: Target::Method(KnownClass::Int), name: "countZeroBitsTrailing", kind: FctKind::Builtin(Intrinsic::Int32CountZeroBitsTrailing) },
        );
        table.push(
            Registration { target: Target::Method(KnownClass::Int), name: "countOneBitsTrailing", kind: FctKind::Builtin(Intrinsic::Int32CountOneBitsTrailing) },
        );
    }
    proof {
        assert(entries(table@) =~= entries(before) + (if tzcnt {
            seq![
                (Target::Method(KnownClass::Int), "countZeroBitsTrailing"@, FctKind::Builtin(Intrinsic::Int32CountZeroBitsTrailing)),
                (Target::Method(KnownClass::Int), "countOneBitsTrailing"@, FctKind::Builtin(Intrinsic::Int32CountOneBitsTrailing)),
            ]
        } else {
            Seq::empty()
        }));
    }

    let ghost before = table@;
    if popcnt {
        table.push(
            Registration { target: Target::Method(KnownClass::Int64), name: "countZeroBits", kind: FctKind::Builtin(Intrinsic::Int64CountZeroBits) },
        );
        table.push(
            Registration { target: Target::Method(KnownClass::Int64), name: "countOneBits", kind: FctKind::Builtin(Intrinsic::Int64CountOneBits) },
        );
    }
    proof {
        assert(entries(table@) =~= entries(before) + (if popcnt {
            seq![
                (Target::Method(KnownClass::Int64), "countZeroBits"@, FctKind::Builtin(Intrinsic::Int64CountZeroBits)),
                (Target::Method(KnownClass::Int64), "countOneBits"@, FctKind::Builtin(Intrinsic::Int64CountOneBits)),
            ]
        } else {
            Seq::empty()
        }));
    }

    let ghost before = table@;
    if lzcnt {
        table.push(
            Registration { target: Target::Method(KnownClass::Int64), name: "countZeroBitsLeading", kind: FctKind::Builtin(Intrinsic::Int64CountZeroBitsLeading) },
        );
        table.push(
            Registration { target: Target::Method(KnownClass::Int64), name: "countOneBitsLeading", kind: FctKind::Builtin(Intrinsic::Int64CountOneBitsLeading) },
        );
    }
    proof {
        assert(entries(table@) =~= entries(before) + (if lzcnt {
            seq![
                (Target::Method(KnownClass::Int64), "countZeroBitsLeading"@, FctKind::Builtin(Intrinsic::Int64CountZeroBitsLeading)),
                (Target::Method(KnownClass::Int64), "countOneBitsLeading"@, FctKind::Builtin(Intrinsic::Int64CountOneBitsLeading)),
            ]
        } else {
            Seq::empty()
        }));
    }

    let ghost before = table@;
    if tzcnt {
        table.push(
            Registration { target: Target::Method(KnownClass::Int64), name: "countZeroBitsTrailing", kind: FctKind::Builtin(Intrinsic::Int64CountZeroBitsTrailing) },
        );
        table.push(
            Registration { target: Target::Method(KnownClass::Int64), name: "countOneBitsTrailing", kind: FctKind::Builtin(Intrinsic::Int64CountOneBitsTrailing) },
        );
    }
    proof {
        assert(entries(table@) =~= entries(before) + (if tzcnt {
            seq![
                (Target::Method(KnownClass::Int64), "countZeroBitsTrailing"@, FctKind::Builtin(Intrinsic::Int64CountZeroBitsTrailing)),
                (Target::Method(KnownClass::Int64), "countOneBitsTrailing"@, FctKind::Builtin(Intrinsic::Int64CountOneBitsTrailing)),
            ]
        } else {
            Seq::empty()
        }));
    }

    table
}

} // verus!
