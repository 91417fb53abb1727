//! What the compiler itself brings into a program: the builtin types and
//! functions, and the methods that it refers to by name.

use vstd::prelude::*;
use crate::sym::Sym;
use crate::ty::BuiltinType;
use crate::mem::{header_size, ptr_width_usize, spec_header_size, spec_ptr_width};
use crate::registry::{
    conditional_registrations, conditional_table, fcts_after, internal_function_registrations,
    internal_function_table, names_after, register_all, registrable,
};
use crate::vm::{
    is_interned, Class, ClassDef, ClassDefId, ClassId, Fct, FctId, FctKind, InstanceSize,
    Intrinsic, KnownClasses, KnownElements, KnownFunctions, NativeFct, TraitId, VM, VTable,
};

verus! {

/// The table of names once `s` is interned.
pub open spec fn interned(names: Seq<Seq<char>>, s: Seq<char>) -> Seq<Seq<char>> {
    if is_interned(names, s) {
        names
    } else {
        names.push(s)
    }
}

/// The number under which the table of names holds `s`.
pub open spec fn name_of(names: Seq<Seq<char>>, s: Seq<char>) -> int {
    choose|i: int| 0 <= i < names.len() && #[trigger] names[i] == s
}

/// Whether `s` stands for something in the context.
pub open spec fn defined(vm: &VM, s: Seq<char>) -> bool {
    exists|i: int|
        0 <= i < vm.interner@.len() && #[trigger] vm.interner@[i] == s && vm.sym@.contains_key(
            i as usize,
        )
}

/// No string is in the table twice.
pub open spec fn distinct(names: Seq<Seq<char>>) -> bool {
    forall|a: int, b: int| 0 <= a < b < names.len() ==> #[trigger] names[a] != #[trigger] names[b]
}

/// A string that a table without repetitions holds at `i` has `i` as its
/// number.
pub proof fn lemma_name_of(names: Seq<Seq<char>>, s: Seq<char>, i: int)
    requires
        distinct(names),
        0 <= i < names.len(),
        names[i] == s,
    ensures
        name_of(names, s) == i,
        is_interned(names, s),
{
    let j = name_of(names, s);
    if i < j {
        assert(names[i] != names[j]);
    } else if j < i {
        assert(names[j] != names[i]);
    }
}

/// Interning a string keeps the table free of repetitions, and keeps every
/// string that was in it under its number.
pub proof fn lemma_interned(names: Seq<Seq<char>>, s: Seq<char>)
    requires
        distinct(names),
    ensures
        distinct(interned(names, s)),
        is_interned(interned(names, s), s),
        forall|t: Seq<char>| #[trigger]
            is_interned(names, t) ==> is_interned(interned(names, s), t) && name_of(
                interned(names, s),
                t,
            ) == name_of(names, t),
        forall|i: int| 0 <= i < names.len() ==> interned(names, s)[i] == #[trigger] names[i],
        forall|i: int|
            0 <= i < interned(names, s).len() && #[trigger] interned(names, s)[i] != s ==> i
                < names.len(),
{
    let after = interned(names, s);
    assert forall|a: int, b: int| 0 <= a < b < after.len() implies #[trigger] after[a]
        != #[trigger] after[b] by {
        if b == names.len() {
            assert(names[a] != s);
        }
    }
    if !is_interned(names, s) {
        assert(after[names.len() as int] == s);
    }
    assert forall|t: Seq<char>| #[trigger] is_interned(names, t) implies is_interned(after, t)
        && name_of(after, t) == name_of(names, t) by {
        let i = name_of(names, t);
        assert(after[i] == t);
        lemma_name_of(after, t, i);
    }
}

/// Makes `name` stand for the type `ty`.
fn builtin_type(name: &str, ty: BuiltinType, vm: &mut VM)
    requires
        old(vm).wf(),
        !defined(old(vm), name@),
    ensures
        final(vm).wf(),
        final(vm).interner@ == interned(old(vm).interner@, name@),
        final(vm).sym@ == old(vm).sym@.insert(
            name_of(final(vm).interner@, name@) as usize,
            Sym::SymType(ty),
        ),
        forall|t: Seq<char>| t != name@ && !defined(old(vm), t) ==> !#[trigger] defined(final(vm), t),
        final(vm).vips == old(vm).vips,
        final(vm).classes == old(vm).classes,
        final(vm).class_defs == old(vm).class_defs,
        final(vm).fcts == old(vm).fcts,
        final(vm).impls == old(vm).impls,
        final(vm).traits == old(vm).traits,
        final(vm).structs == old(vm).structs,
        final(vm).tuples == old(vm).tuples,
        final(vm).types == old(vm).types,
{
    let name_id = vm.interner.intern(name);
    proof {
        lemma_interned(old(vm).interner@, name@);
        lemma_name_of(vm.interner@, name@, name_id.0 as int);
        if old(vm).sym@.contains_key(name_id.0) {
            assert(old(vm).interner@[name_id.0 as int] == name@);
        }
    }
    let r = vm.sym.insert(name_id, Sym::SymType(ty));
    proof {
        assert(r is Ok);
        assert forall|t: Seq<char>| t != name@ && !defined(old(vm), t) implies !#[trigger] defined(
            vm,
            t,
        ) by {
            if defined(vm, t) {
                let i = choose|i: int|
                    0 <= i < vm.interner@.len() && #[trigger] vm.interner@[i] == t
                        && vm.sym@.contains_key(i as usize);
                assert(vm.interner@[name_id.0 as int] == name@);
                assert(i != name_id.0);
                assert(old(vm).sym@.contains_key(i as usize));
                assert(old(vm).interner@[i] == t);
            }
        }
    }
}

/// Brings the builtin types `int`, `bool` and `str` into the context.
fn add_builtin_types(vm: &mut VM)
    requires
        old(vm).wf(),
        !defined(old(vm), "int"@),
        !defined(old(vm), "bool"@),
        !defined(old(vm), "str"@),
    ensures
        final(vm).wf(),
        final(vm).interner@ == interned(
            interned(interned(old(vm).interner@, "int"@), "bool"@),
            "str"@,
        ),
        final(vm).sym@ == old(vm).sym@.insert(
            name_of(final(vm).interner@, "int"@) as usize,
            Sym::SymType(BuiltinType::Int),
        ).insert(
            name_of(final(vm).interner@, "bool"@) as usize,
            Sym::SymType(BuiltinType::Bool),
        ).insert(name_of(final(vm).interner@, "str"@) as usize, Sym::SymType(BuiltinType::Str)),
        forall|t: Seq<char>|
            t != "int"@ && t != "bool"@ && t != "str"@ && !defined(old(vm), t) ==> !#[trigger] defined(
                final(vm),
                t,
            ),
        final(vm).vips == old(vm).vips,
        final(vm).classes == old(vm).classes,
        final(vm).class_defs == old(vm).class_defs,
        final(vm).fcts == old(vm).fcts,
        final(vm).impls == old(vm).impls,
        final(vm).traits == old(vm).traits,
        final(vm).structs == old(vm).structs,
        final(vm).tuples == old(vm).tuples,
        final(vm).types == old(vm).types,
{
    proof {
        lemma_builtin_names_differ();
    }
    let ghost names0 = vm.interner@;
    builtin_type("int", BuiltinType::Int, vm);
    let ghost names1 = vm.interner@;
    builtin_type("bool", BuiltinType::Bool, vm);
    let ghost names2 = vm.interner@;
    builtin_type("str", BuiltinType::Str, vm);
    proof {
        lemma_interned(names0, "int"@);
        lemma_interned(names1, "bool"@);
        lemma_interned(names2, "str"@);
        assert(is_interned(names1, "int"@));
        assert(is_interned(names2, "int"@));
        assert(is_interned(names2, "bool"@));
    }
}

/// The names of the builtin types and functions differ from each other.
pub proof fn lemma_builtin_names_differ()
    ensures
        "int"@ != "bool"@,
        "int"@ != "str"@,
        "int"@ != "assert"@,
        "bool"@ != "str"@,
        "bool"@ != "assert"@,
        "str"@ != "assert"@,
{
    reveal_strlit("int");
    reveal_strlit("bool");
    reveal_strlit("str");
    reveal_strlit("assert");
    assert("int"@.len() == 3 && "bool"@.len() == 4 && "str"@.len() == 3 && "assert"@.len() == 6);
    assert("int"@[0] == 'i' && "str"@[0] == 's');
}

/// Brings the builtin function `assert`, which takes a `bool`, into the
/// context.
fn add_builtin_functions(vm: &mut VM)
    requires
        old(vm).wf(),
        !defined(old(vm), "assert"@),
    ensures
        final(vm).wf(),
        final(vm).interner@ == interned(old(vm).interner@, "assert"@),
        final(vm).sym@ == old(vm).sym@.insert(
            name_of(final(vm).interner@, "assert"@) as usize,
            Sym::SymFct(FctId(old(vm).fcts@.len() as usize)),
        ),
        final(vm).fcts@.len() == old(vm).fcts@.len() + 1,
        final(vm).fcts@.drop_last() == old(vm).fcts@,
        is_builtin_assert(final(vm).fcts@.last(), name_of(final(vm).interner@, "assert"@)),
        final(vm).vips == old(vm).vips,
        final(vm).classes == old(vm).classes,
        final(vm).class_defs == old(vm).class_defs,
        final(vm).impls == old(vm).impls,
        final(vm).traits == old(vm).traits,
        final(vm).structs == old(vm).structs,
        final(vm).tuples == old(vm).tuples,
        final(vm).types == old(vm).types,
{
    let name = vm.interner.intern("assert");
    proof {
        lemma_interned(old(vm).interner@, "assert"@);
        lemma_name_of(vm.interner@, "assert"@, name.0 as int);
        if old(vm).sym@.contains_key(name.0) {
            assert(old(vm).interner@[name.0 as int] == "assert"@);
        }
    }
    let mut params_types: Vec<BuiltinType> = Vec::new();
    params_types.push(BuiltinType::Bool);
    let fct_info = Fct {
        name,
        is_static: false,
        internal: false,
        internal_resolved: false,
        kind: FctKind::Definition,
        params_types,
        return_type: BuiltinType::Unit,
    };
    let r = vm.add_function(fct_info);
    proof {
        assert(r is Ok);
        assert(vm.fcts@.drop_last() =~= old(vm).fcts@);
    }
}

/// What the context holds of the builtin function `assert`, under the name
/// with the number `name`.
pub open spec fn is_builtin_assert(fct: Fct, name: int) -> bool {
    &&& fct.name.0 == name
    &&& !fct.is_static
    &&& !fct.internal
    &&& !fct.internal_resolved
    &&& fct.kind == FctKind::Definition
    &&& fct.params_types@ == seq![BuiltinType::Bool]
    &&& fct.return_type == BuiltinType::Unit
}

/// Brings the builtin types and functions into the context: the types `int`,
/// `bool` and `str`, and the function `assert`.
pub fn init(vm: &mut VM)
    requires
        old(vm).wf(),
        !defined(old(vm), "int"@),
        !defined(old(vm), "bool"@),
        !defined(old(vm), "str"@),
        !defined(old(vm), "assert"@),
    ensures
        final(vm).wf(),
        final(vm).interner@ == interned(
            interned(interned(interned(old(vm).interner@, "int"@), "bool"@), "str"@),
            "assert"@,
        ),
        final(vm).sym@ == old(vm).sym@.insert(
            name_of(final(vm).interner@, "int"@) as usize,
            Sym::SymType(BuiltinType::Int),
        ).insert(
            name_of(final(vm).interner@, "bool"@) as usize,
            Sym::SymType(BuiltinType::Bool),
        ).insert(
            name_of(final(vm).interner@, "str"@) as usize,
            Sym::SymType(BuiltinType::Str),
        ).insert(
            name_of(final(vm).interner@, "assert"@) as usize,
            Sym::SymFct(FctId(old(vm).fcts@.len() as usize)),
        ),
        final(vm).fcts@.len() == old(vm).fcts@.len() + 1,
        final(vm).fcts@.drop_last() == old(vm).fcts@,
        is_builtin_assert(final(vm).fcts@.last(), name_of(final(vm).interner@, "assert"@)),
        final(vm).vips == old(vm).vips,
        final(vm).classes == old(vm).classes,
        final(vm).class_defs == old(vm).class_defs,
        final(vm).impls == old(vm).impls,
        final(vm).traits == old(vm).traits,
        final(vm).structs == old(vm).structs,
        final(vm).tuples == old(vm).tuples,
        final(vm).types == old(vm).types,
{
    proof {
        lemma_builtin_names_differ();
    }
    add_builtin_types(vm);
    let ghost names = vm.interner@;
    add_builtin_functions(vm);
    proof {
        lemma_interned(names, "assert"@);
        lemma_interned(old(vm).interner@, "int"@);
        lemma_interned(interned(old(vm).interner@, "int"@), "bool"@);
        lemma_interned(interned(interned(old(vm).interner@, "int"@), "bool"@), "str"@);
        assert(is_interned(names, "int"@));
        assert(is_interned(names, "bool"@));
        assert(is_interned(names, "str"@));
    }
}

/// Whether the method `mid` has the name `name` and is static or not as
/// `is_static` says.
pub open spec fn method_matches(vm: &VM, mid: FctId, name: Seq<char>, is_static: bool) -> bool {
    let fct = vm.fcts@[mid.0 as int];
    &&& fct.name.0 < vm.interner@.len()
    &&& vm.interner@[fct.name.0 as int] == name
    &&& fct.is_static == is_static
}

/// The `i`-th method of the class is the first one that has the name `name`
/// and is static or not as `is_static` says.
pub open spec fn first_method(
    vm: &VM,
    clsid: ClassId,
    name: Seq<char>,
    is_static: bool,
    i: int,
) -> bool {
    let methods = vm.classes@[clsid.0 as int].methods@;
    &&& 0 <= i < methods.len()
    &&& method_matches(vm, methods[i], name, is_static)
    &&& forall|j: int| 0 <= j < i ==> !method_matches(vm, #[trigger] methods[j], name, is_static)
}

/// Whether the class has a method with the name `name` that is static or
/// not as `is_static` says.
pub open spec fn has_method(vm: &VM, clsid: ClassId, name: Seq<char>, is_static: bool) -> bool {
    exists|i: int| first_method(vm, clsid, name, is_static, i)
}

/// The first method of the class that has the name `name` and is static or
/// not as `is_static` says.
pub open spec fn spec_find_method(
    vm: &VM,
    clsid: ClassId,
    name: Seq<char>,
    is_static: bool,
) -> FctId {
    let i = choose|i: int| first_method(vm, clsid, name, is_static, i);
    vm.classes@[clsid.0 as int].methods@[i]
}

/// The method of the class `clsid` that is called `name`.
pub fn find_method(vm: &VM, clsid: ClassId, name: &str) -> (r: FctId)
    requires
        vm.wf(),
        clsid.0 < vm.classes@.len(),
        has_method(vm, clsid, name@, false),
    ensures
        r == spec_find_method(vm, clsid, name@, false),
{
    find_method_internal(vm, clsid, name, false)
}

/// The static method of the class `clsid` that is called `name`.
pub fn find_static_method(vm: &VM, clsid: ClassId, name: &str) -> (r: FctId)
    requires
        vm.wf(),
        clsid.0 < vm.classes@.len(),
        has_method(vm, clsid, name@, true),
    ensures
        r == spec_find_method(vm, clsid, name@, true),
{
    find_method_internal(vm, clsid, name, true)
}

pub fn find_method_internal(vm: &VM, clsid: ClassId, name: &str, is_static: bool) -> (r: FctId)
    requires
        vm.wf(),
        clsid.0 < vm.classes@.len(),
        has_method(vm, clsid, name@, is_static),
    ensures
        r == spec_find_method(vm, clsid, name@, is_static),
{
    let cls = &vm.classes[clsid.0];
    let found = vm.interner.lookup(name);
    let ghost first = choose|i: int| first_method(vm, clsid, name@, is_static, i);
    proof {
        let fct = vm.fcts@[cls.methods@[first].0 as int];
        assert(vm.interner@[fct.name.0 as int] == name@);
        assert(is_interned(vm.interner@, name@));
    }
    let intern_name = found.unwrap();
    let n = cls.methods.len();
    let mut i: usize = 0;
    loop
        invariant
            i <= first < n,
            n == cls.methods@.len(),
            vm.wf(),
            clsid.0 < vm.classes@.len(),
            *cls == vm.classes@[clsid.0 as int],
            intern_name.0 < vm.interner@.len(),
            vm.interner@[intern_name.0 as int] == name@,
            first_method(vm, clsid, name@, is_static, first),
        decreases n - i,
    {
        let mid = cls.methods[i];
        assert(mid.0 < vm.fcts@.len());
        let mtd = &vm.fcts[mid.0];
        proof {
            if mtd.name.0 < vm.interner@.len() && mtd.name.0 != intern_name.0 {
                if mtd.name.0 < intern_name.0 {
                    assert(vm.interner@[mtd.name.0 as int] != vm.interner@[intern_name.0 as int]);
                } else {
                    assert(vm.interner@[intern_name.0 as int] != vm.interner@[mtd.name.0 as int]);
                }
            }
        }
        if mtd.name == intern_name && mtd.is_static == is_static {
            assert(method_matches(vm, mid, name@, is_static));
            assert(i == first);
            return mid;
        }
        assert(!method_matches(vm, mid, name@, is_static));
        i += 1;
    }
}

/// The trait that is called `name`.
pub fn find_trait(vm: &VM, name: &str) -> (r: TraitId)
    requires
        is_interned(vm.interner@, name@),
        vm.sym@.contains_key(name_of(vm.interner@, name@) as usize),
        vm.sym@[name_of(vm.interner@, name@) as usize] is SymTrait,
        vm.interner.wf(),
    ensures
        Sym::SymTrait(r) == vm.sym@[name_of(vm.interner@, name@) as usize],
{
    let iname = vm.interner.lookup(name).unwrap();
    proof {
        lemma_name_of(vm.interner@, name@, iname.0 as int);
    }
    let tid = vm.sym.get_trait(iname);
    tid.unwrap()
}

/// Looks up the methods of `StringBuffer` that the compiler calls: the
/// static method `empty`, and the methods `append` and `toString`.
pub fn known_methods(vm: &mut VM)
    requires
        old(vm).wf(),
        old(vm).vips.cls.string_buffer.0 < old(vm).classes@.len(),
        has_method(old(vm), old(vm).vips.cls.string_buffer, "empty"@, true),
        has_method(old(vm), old(vm).vips.cls.string_buffer, "append"@, false),
        has_method(old(vm), old(vm).vips.cls.string_buffer, "toString"@, false),
    ensures
        final(vm).vips == (KnownElements {
            fct: KnownFunctions {
                string_buffer_empty: spec_find_method(
                    old(vm),
                    old(vm).vips.cls.string_buffer,
                    "empty"@,
                    true,
                ),
                string_buffer_append: spec_find_method(
                    old(vm),
                    old(vm).vips.cls.string_buffer,
                    "append"@,
                    false,
                ),
                string_buffer_to_string: spec_find_method(
                    old(vm),
                    old(vm).vips.cls.string_buffer,
                    "toString"@,
                    false,
                ),
            },
            ..old(vm).vips
        }),
        final(vm).interner == old(vm).interner,
        final(vm).sym == old(vm).sym,
        final(vm).classes == old(vm).classes,
        final(vm).class_defs == old(vm).class_defs,
        final(vm).fcts == old(vm).fcts,
        final(vm).impls == old(vm).impls,
        final(vm).traits == old(vm).traits,
        final(vm).structs == old(vm).structs,
        final(vm).tuples == old(vm).tuples,
        final(vm).types == old(vm).types,
{
    let empty = find_static_method(vm, vm.vips.cls.string_buffer, "empty");
    vm.vips.fct.string_buffer_empty = empty;
    proof {
        lemma_find_method_same(old(vm), vm, vm.vips.cls.string_buffer, "append"@, false);
    }
    let append = find_method(vm, vm.vips.cls.string_buffer, "append");
    vm.vips.fct.string_buffer_append = append;
    proof {
        lemma_find_method_same(old(vm), vm, vm.vips.cls.string_buffer, "toString"@, false);
    }
    let to_string = find_method(vm, vm.vips.cls.string_buffer, "toString");
    vm.vips.fct.string_buffer_to_string = to_string;
}

/// Which method a lookup finds depends on the classes, the functions and
/// the names of the context alone.
pub proof fn lemma_find_method_same(
    a: &VM,
    b: &VM,
    clsid: ClassId,
    name: Seq<char>,
    is_static: bool,
)
    requires
        a.classes == b.classes,
        a.fcts == b.fcts,
        a.interner == b.interner,
        has_method(a, clsid, name, is_static),
    ensures
        has_method(b, clsid, name, is_static),
        spec_find_method(a, clsid, name, is_static) == spec_find_method(b, clsid, name, is_static),
{
    let i = choose|i: int| first_method(a, clsid, name, is_static, i);
    assert(first_method(b, clsid, name, is_static, i));
    let j = choose|j: int| first_method(b, clsid, name, is_static, j);
    assert(i == j) by {
        if i < j {
        } else if j < i {
        }
    }
}

/// The function `fct` once it has the code `kind`.
pub open spec fn resolved_fct(fct: Fct, kind: FctKind) -> Fct {
    Fct { kind, internal_resolved: true, ..fct }
}

/// The functions of a context once the function called `name` has the code
/// `kind`: where `name` stands for a function that is declared internal,
/// that function is resolved; otherwise nothing changes.
pub open spec fn fcts_with_fct(
    names: Seq<Seq<char>>,
    sym: Map<usize, Sym>,
    fcts: Seq<Fct>,
    name: Seq<char>,
    kind: FctKind,
) -> Seq<Fct> {
    let n = name_of(names, name) as usize;
    if is_interned(names, name) && sym.contains_key(n) && sym[n] is SymFct
        && fcts[sym[n]->SymFct_0.0 as int].internal {
        let id = sym[n]->SymFct_0.0 as int;
        fcts.update(id, resolved_fct(fcts[id], kind))
    } else {
        fcts
    }
}

/// The `i`-th of `methods` is the first one that is called `name`.
pub open spec fn first_named(
    names: Seq<Seq<char>>,
    methods: Seq<FctId>,
    fcts: Seq<Fct>,
    name: Seq<char>,
    i: int,
) -> bool {
    &&& 0 <= i < methods.len()
    &&& names[fcts[methods[i].0 as int].name.0 as int] == name
    &&& forall|j: int|
        0 <= j < i ==> names[fcts[(#[trigger] methods[j]).0 as int].name.0 as int] != name
}

/// Whether giving code to the method called `name` is in order: the first
/// of `methods` with that name, if there is one, is declared internal.
pub open spec fn method_resolvable(
    names: Seq<Seq<char>>,
    methods: Seq<FctId>,
    fcts: Seq<Fct>,
    name: Seq<char>,
) -> bool {
    forall|i: int| #[trigger]
        first_named(names, methods, fcts, name, i) ==> fcts[methods[i].0 as int].internal
}

/// The functions of a context once the first of `methods` that is called
/// `name` has the code `kind`; where no method has that name nothing
/// changes.
pub open spec fn fcts_with_method(
    names: Seq<Seq<char>>,
    methods: Seq<FctId>,
    fcts: Seq<Fct>,
    name: Seq<char>,
    kind: FctKind,
) -> Seq<Fct> {
    if exists|i: int| first_named(names, methods, fcts, name, i) {
        let i = choose|i: int| first_named(names, methods, fcts, name, i);
        let id = methods[i].0 as int;
        fcts.update(id, resolved_fct(fcts[id], kind))
    } else {
        fcts
    }
}

/// Everything of the context but its names and its functions is as before,
/// and the functions are the same in number and in all but their code.
pub open spec fn resolution_step(before: &VM, after: &VM) -> bool {
    &&& after.sym == before.sym
    &&& after.vips == before.vips
    &&& after.classes == before.classes
    &&& after.class_defs == before.class_defs
    &&& after.impls == before.impls
    &&& after.traits == before.traits
    &&& after.structs == before.structs
    &&& after.tuples == before.tuples
    &&& after.types == before.types
    &&& after.fcts@.len() == before.fcts@.len()
    &&& forall|f: int|
        0 <= f < before.fcts@.len() ==> (#[trigger] after.fcts@[f]).name == before.fcts@[f].name
            && after.fcts@[f].internal == before.fcts@[f].internal
}

/// Gives the function called `name` the code `kind`, where the name stands
/// for a function that is declared internal.
pub fn internal_fct(vm: &mut VM, name: &str, kind: FctKind)
    requires
        old(vm).wf(),
    ensures
        final(vm).wf(),
        final(vm).interner@ == interned(old(vm).interner@, name@),
        final(vm).fcts@ == fcts_with_fct(
            final(vm).interner@,
            old(vm).sym@,
            old(vm).fcts@,
            name@,
            kind,
        ),
        resolution_step(old(vm), final(vm)),
{
    let name_id = vm.interner.intern(name);
    proof {
        lemma_interned(old(vm).interner@, name@);
        lemma_name_of(vm.interner@, name@, name_id.0 as int);
    }
    let fctid = vm.sym.get_fct(name_id);
    if let Some(fctid) = fctid {
        assert(old(vm).sym@.contains_key(name_id.0));
        if vm.fcts[fctid.0].internal {
            vm.fcts[fctid.0].kind = kind;
            vm.fcts[fctid.0].internal_resolved = true;
            proof {
                assert(vm.fcts@ =~= old(vm).fcts@.update(
                    fctid.0 as int,
                    resolved_fct(old(vm).fcts@[fctid.0 as int], kind),
                ));
            }
        }
    }
}

/// Gives the function called `name` the function `fct` of the runtime as
/// its code.
pub fn native_fct(vm: &mut VM, name: &str, fct: NativeFct)
    requires
        old(vm).wf(),
    ensures
        final(vm).wf(),
        final(vm).interner@ == interned(old(vm).interner@, name@),
        final(vm).fcts@ == fcts_with_fct(
            final(vm).interner@,
            old(vm).sym@,
            old(vm).fcts@,
            name@,
            FctKind::Native(fct),
        ),
        resolution_step(old(vm), final(vm)),
{
    internal_fct(vm, name, FctKind::Native(fct));
}

/// Makes the function called `name` the intrinsic `intrinsic`.
pub fn intrinsic_fct(vm: &mut VM, name: &str, intrinsic: Intrinsic)
    requires
        old(vm).wf(),
    ensures
        final(vm).wf(),
        final(vm).interner@ == interned(old(vm).interner@, name@),
        final(vm).fcts@ == fcts_with_fct(
            final(vm).interner@,
            old(vm).sym@,
            old(vm).fcts@,
            name@,
            FctKind::Builtin(intrinsic),
        ),
        resolution_step(old(vm), final(vm)),
{
    internal_fct(vm, name, FctKind::Builtin(intrinsic));
}

/// Gives the first method of the class `clsid` that is called `name` the
/// code `kind`.
pub fn internal_method(vm: &mut VM, clsid: ClassId, name: &str, kind: FctKind)
    requires
        old(vm).wf(),
        clsid.0 < old(vm).classes@.len(),
        method_resolvable(
            interned(old(vm).interner@, name@),
            old(vm).classes@[clsid.0 as int].methods@,
            old(vm).fcts@,
            name@,
        ),
    ensures
        final(vm).wf(),
        final(vm).interner@ == interned(old(vm).interner@, name@),
        final(vm).fcts@ == fcts_with_method(
            final(vm).interner@,
            old(vm).classes@[clsid.0 as int].methods@,
            old(vm).fcts@,
            name@,
            kind,
        ),
        resolution_step(old(vm), final(vm)),
{
    let name_id = vm.interner.intern(name);
    let ghost names = vm.interner@;
    let ghost methods = vm.classes@[clsid.0 as int].methods@;
    let ghost fcts = old(vm).fcts@;
    proof {
        lemma_interned(old(vm).interner@, name@);
        lemma_name_of(names, name@, name_id.0 as int);
    }
    let n = vm.classes[clsid.0].methods.len();
    let mut i: usize = 0;
    while i < n
        invariant
            i <= n,
            n == methods.len(),
            methods == vm.classes@[clsid.0 as int].methods@,
            clsid.0 < vm.classes@.len(),
            old(vm).wf(),
            distinct(names),
            names == interned(old(vm).interner@, name@),
            names == vm.interner@,
            name_id.0 < names.len(),
            names[name_id.0 as int] == name@,
            fcts == old(vm).fcts@,
            vm.fcts@ == fcts,
            vm.sym == old(vm).sym,
            vm.vips == old(vm).vips,
            vm.classes == old(vm).classes,
            vm.class_defs == old(vm).class_defs,
            vm.impls == old(vm).impls,
            vm.traits == old(vm).traits,
            vm.structs == old(vm).structs,
            vm.tuples == old(vm).tuples,
            vm.types == old(vm).types,
            method_resolvable(names, methods, fcts, name@),
            forall|j: int|
                0 <= j < i ==> names[fcts[(#[trigger] methods[j]).0 as int].name.0 as int] != name@,
        decreases n - i,
    {
        let mid = vm.classes[clsid.0].methods[i];
        proof {
            assert(methods[i as int].0 < fcts.len());
            let other = fcts[mid.0 as int].name.0 as int;
            assert(other < old(vm).interner@.len());
            if other != name_id.0 {
                if other < name_id.0 {
                    assert(names[other] != names[name_id.0 as int]);
                } else {
                    assert(names[name_id.0 as int] != names[other]);
                }
            }
        }
        if vm.fcts[mid.0].name == name_id {
            proof {
                assert(first_named(names, methods, fcts, name@, i as int));
                let c = choose|c: int| first_named(names, methods, fcts, name@, c);
                assert(c == i) by {
                    if c < i {
                    } else if i < c {
                    }
                }
            }
            vm.fcts[mid.0].kind = kind;
            vm.fcts[mid.0].internal_resolved = true;
            proof {
                assert(vm.fcts@ =~= fcts.update(mid.0 as int, resolved_fct(fcts[mid.0 as int], kind)));
            }
            return ;
        }
        i += 1;
    }
    proof {
        assert forall|c: int| !first_named(names, methods, fcts, name@, c) by {}
    }
}

/// Gives the first method of the class `clsid` that is called `name` the
/// function `fct` of the runtime as its code.
pub fn native_method(vm: &mut VM, clsid: ClassId, name: &str, fct: NativeFct)
    requires
        old(vm).wf(),
        clsid.0 < old(vm).classes@.len(),
        method_resolvable(
            interned(old(vm).interner@, name@),
            old(vm).classes@[clsid.0 as int].methods@,
            old(vm).fcts@,
            name@,
        ),
    ensures
        final(vm).wf(),
        final(vm).interner@ == interned(old(vm).interner@, name@),
        final(vm).fcts@ == fcts_with_method(
            final(vm).interner@,
            old(vm).classes@[clsid.0 as int].methods@,
            old(vm).fcts@,
            name@,
            FctKind::Native(fct),
        ),
        resolution_step(old(vm), final(vm)),
{
    internal_method(vm, clsid, name, FctKind::Native(fct));
}

/// Makes the first method of the class `clsid` that is called `name` the
/// intrinsic `intrinsic`.
pub fn intrinsic_method(vm: &mut VM, clsid: ClassId, name: &str, intrinsic: Intrinsic)
    requires
        old(vm).wf(),
        clsid.0 < old(vm).classes@.len(),
        method_resolvable(
            interned(old(vm).interner@, name@),
            old(vm).classes@[clsid.0 as int].methods@,
            old(vm).fcts@,
            name@,
        ),
    ensures
        final(vm).wf(),
        final(vm).interner@ == interned(old(vm).interner@, name@),
        final(vm).fcts@ == fcts_with_method(
            final(vm).interner@,
            old(vm).classes@[clsid.0 as int].methods@,
            old(vm).fcts@,
            name@,
            FctKind::Builtin(intrinsic),
        ),
        resolution_step(old(vm), final(vm)),
{
    internal_method(vm, clsid, name, FctKind::Builtin(intrinsic));
}

/// The class that is called `Thread`, where `names` holds that name and it
/// stands for a class.
pub open spec fn thread_class(vm: &VM, names: Seq<Seq<char>>) -> Option<ClassId> {
    let n = name_of(names, "Thread"@) as usize;
    if vm.sym@.contains_key(n) && vm.sym@[n] is SymClass {
        Some(vm.sym@[n]->SymClass_0)
    } else {
        None
    }
}

/// The names of the context once all code of the compiler is given out.
pub open spec fn names_after_internal_functions(vm: &VM) -> Seq<Seq<char>> {
    let table = internal_function_table();
    let names = interned(names_after(vm, table, table.len() as int), "Thread"@);
    if thread_class(vm, names) is Some {
        interned(names, "start"@)
    } else {
        names
    }
}

/// The functions of the context once all code of the compiler is given out:
/// the entries of the table are applied in their order, and then the method
/// `start` of the class `Thread`, where the program has that class, starts a
/// thread of the runtime.
pub open spec fn fcts_after_internal_functions(vm: &VM) -> Seq<Fct> {
    let table = internal_function_table();
    let fcts = fcts_after(vm, table, table.len() as int);
    let names = interned(names_after(vm, table, table.len() as int), "Thread"@);
    match thread_class(vm, names) {
        Some(clsid) => fcts_with_method(
            interned(names, "start"@),
            vm.classes@[clsid.0 as int].methods@,
            fcts,
            "start"@,
            FctKind::Native(NativeFct::SpawnThread),
        ),
        None => fcts,
    }
}

/// Whether the code of the compiler can be given out in the context `vm`:
/// the known classes are classes of the context, and every method that gets
/// code is declared internal.
pub open spec fn internal_functions_apply(vm: &VM) -> bool {
    let table = internal_function_table();
    let fcts = fcts_after(vm, table, table.len() as int);
    let names = interned(names_after(vm, table, table.len() as int), "Thread"@);
    &&& registrable(vm, table, table.len() as int)
    &&& thread_class(vm, names) matches Some(clsid) ==> method_resolvable(
        interned(names, "start"@),
        vm.classes@[clsid.0 as int].methods@,
        fcts,
        "start"@,
    )
}

/// Gives the functions and methods that are declared internal their code:
/// functions of the runtime and intrinsics, as the table says.
pub fn internal_functions(vm: &mut VM)
    requires
        old(vm).wf(),
        internal_functions_apply(old(vm)),
    ensures
        final(vm).wf(),
        final(vm).interner@ == names_after_internal_functions(old(vm)),
        final(vm).fcts@ == fcts_after_internal_functions(old(vm)),
        resolution_step(old(vm), final(vm)),
{
    let table = internal_function_registrations();
    register_all(vm, &table);
    let ghost mid = *vm;

    let iname = vm.interner.intern("Thread");
    proof {
        lemma_interned(mid.interner@, "Thread"@);
        lemma_name_of(vm.interner@, "Thread"@, iname.0 as int);
    }
    let clsid = vm.sym.get_class(iname);

    if let Some(clsid) = clsid {
        let ghost before = *vm;
        native_method(vm, clsid, "start", NativeFct::SpawnThread);
        proof {
            assert forall|f: int| 0 <= f < old(vm).fcts@.len() implies (#[trigger] vm.fcts@[f]).name
                == old(vm).fcts@[f].name && vm.fcts@[f].internal == old(vm).fcts@[f].internal by {
                assert(before.fcts@[f].name == old(vm).fcts@[f].name);
            }
        }
    }
}

/// Makes the methods that count bits intrinsics, as far as the processor
/// can do it: `popcnt`, `lzcnt` and `tzcnt` say whether it counts set bits,
/// leading zeros and trailing zeros.
pub fn install_conditional_intrinsics(vm: &mut VM, popcnt: bool, lzcnt: bool, tzcnt: bool)
    requires
        old(vm).wf(),
        registrable(
            old(vm),
            conditional_table(popcnt, lzcnt, tzcnt),
            conditional_table(popcnt, lzcnt, tzcnt).len() as int,
        ),
    ensures
        final(vm).wf(),
        final(vm).interner@ == names_after(
            old(vm),
            conditional_table(popcnt, lzcnt, tzcnt),
            conditional_table(popcnt, lzcnt, tzcnt).len() as int,
        ),
        final(vm).fcts@ == fcts_after(
            old(vm),
            conditional_table(popcnt, lzcnt, tzcnt),
            conditional_table(popcnt, lzcnt, tzcnt).len() as int,
        ),
        resolution_step(old(vm), final(vm)),
{
    let table = conditional_registrations(popcnt, lzcnt, tzcnt);
    register_all(vm, &table);
}

/// Whether the `b`-th method of the `a`-th impl of a class is the method
/// called `name` of an impl of the trait `tid`, and is declared internal.
pub open spec fn impl_method_matches(
    vm: &VM,
    names: Seq<Seq<char>>,
    clsid: ClassId,
    tid: TraitId,
    name: Seq<char>,
    a: int,
    b: int,
) -> bool {
    let impls = vm.classes@[clsid.0 as int].impls@;
    &&& 0 <= a < impls.len()
    &&& vm.impls@[impls[a].0 as int].trait_id == Some(tid)
    &&& 0 <= b < vm.impls@[impls[a].0 as int].methods@.len()
    &&& vm.fcts@[vm.impls@[impls[a].0 as int].methods@[b].0 as int].internal
    &&& names[vm.fcts@[vm.impls@[impls[a].0 as int].methods@[b].0 as int].name.0 as int] == name
}

/// The first such method: none matches in an earlier impl of the class, nor
/// earlier in the same impl.
pub open spec fn first_impl_method(
    vm: &VM,
    names: Seq<Seq<char>>,
    clsid: ClassId,
    tid: TraitId,
    name: Seq<char>,
    a: int,
    b: int,
) -> bool {
    &&& impl_method_matches(vm, names, clsid, tid, name, a, b)
    &&& forall|a2: int, b2: int|
        (a2 < a || (a2 == a && b2 < b)) ==> !#[trigger] impl_method_matches(
            vm,
            names,
            clsid,
            tid,
            name,
            a2,
            b2,
        )
}

/// The functions of the context once the first internal method called
/// `name` among the impls of the trait `tid` for the class `clsid` has the
/// code `kind`; where there is no such method nothing changes.
pub open spec fn fcts_with_impl(
    vm: &VM,
    names: Seq<Seq<char>>,
    clsid: ClassId,
    tid: TraitId,
    name: Seq<char>,
    kind: FctKind,
) -> Seq<Fct> {
    if exists|a: int, b: int| first_impl_method(vm, names, clsid, tid, name, a, b) {
        let (a, b) = choose|a: int, b: int| first_impl_method(vm, names, clsid, tid, name, a, b);
        let id = vm.impls@[vm.classes@[clsid.0 as int].impls@[a].0 as int].methods@[b].0 as int;
        vm.fcts@.update(id, resolved_fct(vm.fcts@[id], kind))
    } else {
        vm.fcts@
    }
}

/// Makes the method called `name` of the impl of the trait `tid` for the
/// class `clsid` the intrinsic `intrinsic`.
pub fn intrinsic_impl(vm: &mut VM, clsid: ClassId, tid: TraitId, name: &str, intrinsic: Intrinsic)
    requires
        old(vm).wf(),
        clsid.0 < old(vm).classes@.len(),
    ensures
        final(vm).wf(),
        final(vm).interner@ == interned(old(vm).interner@, name@),
        final(vm).fcts@ == fcts_with_impl(
            old(vm),
            final(vm).interner@,
            clsid,
            tid,
            name@,
            FctKind::Builtin(intrinsic),
        ),
        resolution_step(old(vm), final(vm)),
{
    internal_impl(vm, clsid, tid, name, FctKind::Builtin(intrinsic));
}

/// Gives the first internal method called `name` among the impls of the
/// trait `tid` for the class `clsid` the code `kind`.
pub fn internal_impl(vm: &mut VM, clsid: ClassId, tid: TraitId, name: &str, kind: FctKind)
    requires
        old(vm).wf(),
        clsid.0 < old(vm).classes@.len(),
    ensures
        final(vm).wf(),
        final(vm).interner@ == interned(old(vm).interner@, name@),
        final(vm).fcts@ == fcts_with_impl(old(vm), final(vm).interner@, clsid, tid, name@, kind),
        resolution_step(old(vm), final(vm)),
{
    let name_id = vm.interner.intern(name);
    let ghost names = vm.interner@;
    let ghost impls = vm.classes@[clsid.0 as int].impls@;
    proof {
        lemma_interned(old(vm).interner@, name@);
        lemma_name_of(names, name@, name_id.0 as int);
    }
    let n = vm.classes[clsid.0].impls.len();
    let mut a: usize = 0;
    while a < n
        invariant
            a <= n,
            n == impls.len(),
            impls == old(vm).classes@[clsid.0 as int].impls@,
            clsid.0 < vm.classes@.len(),
            old(vm).wf(),
            distinct(names),
            names == interned(old(vm).interner@, name@),
            names == vm.interner@,
            name_id.0 < names.len(),
            names[name_id.0 as int] == name@,
            vm.fcts@ == old(vm).fcts@,
            vm.sym == old(vm).sym,
            vm.vips == old(vm).vips,
            vm.classes == old(vm).classes,
            vm.class_defs == old(vm).class_defs,
            vm.impls == old(vm).impls,
            vm.traits == old(vm).traits,
            vm.structs == old(vm).structs,
            vm.tuples == old(vm).tuples,
            vm.types == old(vm).types,
            forall|a2: int, b2: int|
                a2 < a ==> !#[trigger] impl_method_matches(old(vm), names, clsid, tid, name@, a2, b2),
        decreases n - a,
    {
        let iid = vm.classes[clsid.0].impls[a];
        assert(impls[a as int].0 < vm.impls@.len());
        let ghost methods = vm.impls@[iid.0 as int].methods@;
        if vm.impls[iid.0].trait_id == Some(tid) {
            let m = vm.impls[iid.0].methods.len();
            let mut b: usize = 0;
            while b < m
                invariant
                    b <= m,
                    m == methods.len(),
                    a < n,
                    n == impls.len(),
                    impls == old(vm).classes@[clsid.0 as int].impls@,
                    iid == impls[a as int],
                    iid.0 < vm.impls@.len(),
                    methods == old(vm).impls@[iid.0 as int].methods@,
                    old(vm).impls@[iid.0 as int].trait_id == Some(tid),
                    clsid.0 < vm.classes@.len(),
                    old(vm).wf(),
                    distinct(names),
                    names == interned(old(vm).interner@, name@),
                    names == vm.interner@,
                    name_id.0 < names.len(),
                    names[name_id.0 as int] == name@,
                    vm.fcts@ == old(vm).fcts@,
                    vm.sym == old(vm).sym,
                    vm.vips == old(vm).vips,
                    vm.classes == old(vm).classes,
                    vm.class_defs == old(vm).class_defs,
                    vm.impls == old(vm).impls,
                    vm.traits == old(vm).traits,
                    vm.structs == old(vm).structs,
                    vm.tuples == old(vm).tuples,
                    vm.types == old(vm).types,
                    forall|a2: int, b2: int|
                        (a2 < a || (a2 == a && b2 < b)) ==> !#[trigger] impl_method_matches(
                            old(vm),
                            names,
                            clsid,
                            tid,
                            name@,
                            a2,
                            b2,
                        ),
                decreases m - b,
            {
                let fid = vm.impls[iid.0].methods[b];
                proof {
                    assert(methods[b as int].0 < vm.fcts@.len());
                    let other = vm.fcts@[fid.0 as int].name.0 as int;
                    assert(other < old(vm).interner@.len());
                    if other != name_id.0 {
                        if other < name_id.0 {
                            assert(names[other] != names[name_id.0 as int]);
                        } else {
                            assert(names[name_id.0 as int] != names[other]);
                        }
                    }
                }
                if vm.fcts[fid.0].internal && vm.fcts[fid.0].name == name_id {
                    proof {
                        assert(first_impl_method(
                            old(vm),
                            names,
                            clsid,
                            tid,
                            name@,
                            a as int,
                            b as int,
                        ));
                        let (ca, cb) = choose|ca: int, cb: int|
                            first_impl_method(old(vm), names, clsid, tid, name@, ca, cb);
                        assert(ca == a && cb == b) by {
                            if ca < a || (ca == a && cb < b) {
                                assert(!impl_method_matches(
                                    old(vm),
                                    names,
                                    clsid,
                                    tid,
                                    name@,
                                    ca,
                                    cb,
                                ));
                            } else if a < ca || (a == ca && b < cb) {
                                assert(!impl_method_matches(
                                    old(vm),
                                    names,
                                    clsid,
                                    tid,
                                    name@,
                                    a as int,
                                    b as int,
                                ));
                            }
                        }
                    }
                    vm.fcts[fid.0].kind = kind;
                    vm.fcts[fid.0].internal_resolved = true;
                    proof {
                        assert(vm.fcts@ =~= old(vm).fcts@.update(
                            fid.0 as int,
                            resolved_fct(old(vm).fcts@[fid.0 as int], kind),
                        ));
                    }
                    return ;
                }
                b += 1;
            }
        }
        a += 1;
    }
    proof {
        assert forall|ca: int, cb: int|
            !first_impl_method(old(vm), names, clsid, tid, name@, ca, cb) by {
            if impl_method_matches(old(vm), names, clsid, tid, name@, ca, cb) {
                assert(ca < n);
            }
        }
    }
}

/// Whether `name` stands for a class in the context.
pub open spec fn class_named(vm: &VM, name: Seq<char>) -> bool {
    &&& is_interned(vm.interner@, name)
    &&& vm.sym@.contains_key(name_of(vm.interner@, name) as usize)
    &&& vm.sym@[name_of(vm.interner@, name) as usize] is SymClass
}

/// The class that `name` stands for.
pub open spec fn class_of(vm: &VM, name: Seq<char>) -> ClassId {
    vm.sym@[name_of(vm.interner@, name) as usize]->SymClass_0
}

/// Whether `name` stands for a trait in the context.
pub open spec fn trait_named(vm: &VM, name: Seq<char>) -> bool {
    &&& is_interned(vm.interner@, name)
    &&& vm.sym@.contains_key(name_of(vm.interner@, name) as usize)
    &&& vm.sym@[name_of(vm.interner@, name) as usize] is SymTrait
}

/// The trait that `name` stands for.
pub open spec fn trait_of(vm: &VM, name: Seq<char>) -> TraitId {
    vm.sym@[name_of(vm.interner@, name) as usize]->SymTrait_0
}

/// The class `cls` once the compiler has found it: a class that is declared
/// internal is resolved and has the type `ty`, where one is given; any other
/// class stays as it is.
pub open spec fn resolved_class(cls: Class, ty: Option<BuiltinType>) -> Class {
    if cls.internal {
        Class {
            ty: match ty {
                Some(ty) => ty,
                None => cls.ty,
            },
            internal_resolved: true,
            ..cls
        }
    } else {
        cls
    }
}

/// Finds the class that is called `name`, and resolves it where it is
/// declared internal.
pub fn internal_class(vm: &mut VM, name: &str, ty: Option<BuiltinType>) -> (r: ClassId)
    requires
        old(vm).wf(),
        class_named(old(vm), name@),
    ensures
        final(vm).wf(),
        r == class_of(old(vm), name@),
        r.0 < old(vm).classes@.len(),
        final(vm).classes@ == old(vm).classes@.update(
            r.0 as int,
            resolved_class(old(vm).classes@[r.0 as int], ty),
        ),
        final(vm).interner@ == old(vm).interner@,
        final(vm).sym == old(vm).sym,
        final(vm).vips == old(vm).vips,
        final(vm).class_defs == old(vm).class_defs,
        final(vm).fcts == old(vm).fcts,
        final(vm).impls == old(vm).impls,
        final(vm).traits == old(vm).traits,
        final(vm).structs == old(vm).structs,
        final(vm).tuples == old(vm).tuples,
        final(vm).types == old(vm).types,
{
    let iname = vm.interner.intern(name);
    proof {
        lemma_name_of(vm.interner@, name@, iname.0 as int);
    }
    let clsid = vm.sym.get_class(iname).unwrap();
    if vm.classes[clsid.0].internal {
        if let Some(ty) = ty {
            vm.classes[clsid.0].ty = ty;
        }
        vm.classes[clsid.0].internal_resolved = true;
    }
    proof {
        assert(vm.classes@ =~= old(vm).classes@.update(
            clsid.0 as int,
            resolved_class(old(vm).classes@[clsid.0 as int], ty),
        ));
    }
    clsid
}

/// The classes that the compiler knows by name, each with the type that its
/// values have where the type is builtin.
pub open spec fn internal_class_table() -> Seq<(Seq<char>, Option<BuiltinType>)> {
    seq![
        ("Unit"@, Some(BuiltinType::Unit)),
        ("Bool"@, Some(BuiltinType::Bool)),
        ("UInt8"@, Some(BuiltinType::Byte)),
        ("Char"@, Some(BuiltinType::Char)),
        ("Int"@, Some(BuiltinType::Int)),
        ("Int32"@, Some(BuiltinType::Int)),
        ("Int64"@, Some(BuiltinType::Long)),
        ("Float"@, Some(BuiltinType::Float)),
        ("Double"@, Some(BuiltinType::Double)),
        ("Object"@, None::<BuiltinType>),
        ("String"@, None::<BuiltinType>),
        ("StringBuffer"@, None::<BuiltinType>),
        ("Array"@, None::<BuiltinType>),
        ("Testing"@, None::<BuiltinType>),
        ("Stacktrace"@, None::<BuiltinType>),
        ("StacktraceElement"@, None::<BuiltinType>),
    ]
}

/// The classes of the context once the first `n` classes of the table are
/// found.
pub open spec fn classes_resolved(
    vm: &VM,
    table: Seq<(Seq<char>, Option<BuiltinType>)>,
    n: int,
) -> Seq<Class>
    decreases n,
{
    if n <= 0 {
        vm.classes@
    } else {
        let before = classes_resolved(vm, table, n - 1);
        let id = class_of(vm, table[n - 1].0).0 as int;
        before.update(id, resolved_class(before[id], table[n - 1].1))
    }
}

/// The class `cls` marked as the class of strings.
pub open spec fn string_class(cls: Class) -> Class {
    Class { is_str: true, ..cls }
}

/// The class `cls` marked as the class of arrays.
pub open spec fn array_class(cls: Class) -> Class {
    Class { is_array: true, ..cls }
}

/// The classes of the context once the compiler has found its classes: the
/// classes of the table are resolved, `String` is marked as the class of
/// strings and `Array` as the class of arrays.
pub open spec fn classes_after_internal_classes(vm: &VM) -> Seq<Class> {
    let table = internal_class_table();
    let found = classes_resolved(vm, table, table.len() as int);
    let string = class_of(vm, "String"@).0 as int;
    let marked = found.update(string, string_class(found[string]));
    let array = class_of(vm, "Array"@).0 as int;
    marked.update(array, array_class(marked[array]))
}

/// Whether `def` is the class of free memory with the number `id`: it has
/// neither fields nor a parent, the size `size`, and a table of methods of
/// its own that is empty and holds `instance_size` and `element_size`.
pub open spec fn is_free_class_def(
    def: ClassDef,
    id: ClassDefId,
    size: InstanceSize,
    instance_size: int,
    element_size: int,
) -> bool {
    &&& def.id == id
    &&& def.cls_id is None
    &&& def.type_params@.len() == 0
    &&& def.parent_id is None
    &&& def.size == size
    &&& def.fields@.len() == 0
    &&& def.ref_fields@.len() == 0
    &&& def.vtable matches Some(vtable) && vtable.classptr == id && vtable.instance_size
        == instance_size && vtable.element_size == element_size && vtable.table@.len() == 0
}

/// Adds the two classes that stand for free memory: one for a free object
/// of the size of a header, one for a free array of words.
pub fn internal_free_classes(vm: &mut VM)
    requires
        old(vm).class_defs@.len() + 2 <= usize::MAX,
    ensures
        final(vm).class_defs@.len() == old(vm).class_defs@.len() + 2,
        final(vm).class_defs@.subrange(0, old(vm).class_defs@.len() as int) == old(
            vm,
        ).class_defs@,
        is_free_class_def(
            final(vm).class_defs@[old(vm).class_defs@.len() as int],
            ClassDefId(old(vm).class_defs@.len() as usize),
            InstanceSize::Fixed(spec_header_size() as i32),
            spec_header_size(),
            0,
        ),
        is_free_class_def(
            final(vm).class_defs@[(old(vm).class_defs@.len() + 1) as int],
            ClassDefId((old(vm).class_defs@.len() + 1) as usize),
            InstanceSize::FreeArray,
            0,
            spec_ptr_width(),
        ),
        final(vm).vips == (KnownElements {
            free_object_class_def: ClassDefId(old(vm).class_defs@.len() as usize),
            free_array_class_def: ClassDefId((old(vm).class_defs@.len() + 1) as usize),
            ..old(vm).vips
        }),
        final(vm).interner == old(vm).interner,
        final(vm).sym == old(vm).sym,
        final(vm).classes == old(vm).classes,
        final(vm).fcts == old(vm).fcts,
        final(vm).impls == old(vm).impls,
        final(vm).traits == old(vm).traits,
        final(vm).structs == old(vm).structs,
        final(vm).tuples == old(vm).tuples,
        final(vm).types == old(vm).types,
        old(vm).wf() ==> final(vm).wf(),
{
    let next = vm.class_defs.len();
    let free_object = ClassDefId(next);
    let free_array = ClassDefId(next + 1);

    vm.class_defs.push(
        ClassDef {
            id: free_object,
            cls_id: None,
            type_params: Vec::new(),
            parent_id: None,
            size: InstanceSize::Fixed(header_size()),
            fields: Vec::new(),
            ref_fields: Vec::new(),
            vtable: None,
        },
    );
    vm.class_defs.push(
        ClassDef {
            id: free_array,
            cls_id: None,
            type_params: Vec::new(),
            parent_id: None,
            size: InstanceSize::FreeArray,
            fields: Vec::new(),
            ref_fields: Vec::new(),
            vtable: None,
        },
    );

    let vtable = VTable {
        classptr: free_object,
        instance_size: 2 * ptr_width_usize(),
        element_size: 0,
        table: Vec::new(),
    };
    vm.class_defs[free_object.to_usize()].vtable = Some(vtable);

    let vtable = VTable {
        classptr: free_array,
        instance_size: 0,
        element_size: ptr_width_usize(),
        table: Vec::new(),
    };
    vm.class_defs[free_array.to_usize()].vtable = Some(vtable);

    vm.vips.free_object_class_def = free_object;
    vm.vips.free_array_class_def = free_array;
    proof {
        assert(vm.class_defs@.subrange(0, next as int) =~= old(vm).class_defs@);
    }
}

/// The table of the known classes, as the strings and types that it holds.
pub open spec fn class_entries(table: Seq<(&'static str, Option<BuiltinType>)>) -> Seq<
    (Seq<char>, Option<BuiltinType>),
> {
    Seq::new(table.len(), |i: int| (table[i].0@, table[i].1))
}

fn internal_class_list() -> (table: Vec<(&'static str, Option<BuiltinType>)>)
    ensures
        class_entries(table@) == internal_class_table(),
{
    let table = vec![
        ("Unit", Some(BuiltinType::Unit)),
        ("Bool", Some(BuiltinType::Bool)),
        ("UInt8", Some(BuiltinType::Byte)),
        ("Char", Some(BuiltinType::Char)),
        ("Int", Some(BuiltinType::Int)),
        ("Int32", Some(BuiltinType::Int)),
        ("Int64", Some(BuiltinType::Long)),
        ("Float", Some(BuiltinType::Float)),
        ("Double", Some(BuiltinType::Double)),
        ("Object", None),
        ("String", None),
        ("StringBuffer", None),
        ("Array", None),
        ("Testing", None),
        ("Stacktrace", None),
        ("StacktraceElement", None),
    ];
    assert(class_entries(table@) =~= internal_class_table());
    table
}

/// Finds the classes of the table, in its order, and resolves them.
fn find_internal_classes(vm: &mut VM) -> (ids: Vec<ClassId>)
    requires
        old(vm).wf(),
        forall|i: int|
            0 <= i < internal_class_table().len() ==> class_named(
                old(vm),
                #[trigger] internal_class_table()[i].0,
            ),
    ensures
        final(vm).wf(),
        ids@.len() == internal_class_table().len(),
        forall|i: int|
            0 <= i < ids@.len() ==> #[trigger] ids@[i] == class_of(
                old(vm),
                internal_class_table()[i].0,
            ) && ids@[i].0 < old(vm).classes@.len(),
        final(vm).classes@ == classes_resolved(
            old(vm),
            internal_class_table(),
            internal_class_table().len() as int,
        ),
        final(vm).classes@.len() == old(vm).classes@.len(),
        final(vm).interner@ == old(vm).interner@,
        final(vm).sym == old(vm).sym,
        final(vm).vips == old(vm).vips,
        final(vm).class_defs == old(vm).class_defs,
        final(vm).fcts == old(vm).fcts,
        final(vm).impls == old(vm).impls,
        final(vm).traits == old(vm).traits,
        final(vm).structs == old(vm).structs,
        final(vm).tuples == old(vm).tuples,
        final(vm).types == old(vm).types,
{
    let table = internal_class_list();
    let ghost all = internal_class_table();
    let mut ids: Vec<ClassId> = Vec::new();
    let n = table.len();
    let mut i: usize = 0;
    while i < n
        invariant
            i <= n,
            n == table@.len(),
            all == internal_class_table(),
            class_entries(table@) == all,
            vm.wf(),
            forall|k: int| 0 <= k < all.len() ==> class_named(old(vm), (#[trigger] all[k]).0),
            ids@.len() == i,
            forall|k: int|
                0 <= k < i ==> #[trigger] ids@[k] == class_of(old(vm), all[k].0) && ids@[k].0 < old(
                    vm,
                ).classes@.len(),
            vm.classes@ == classes_resolved(old(vm), all, i as int),
            vm.classes@.len() == old(vm).classes@.len(),
            vm.interner@ == old(vm).interner@,
            vm.sym == old(vm).sym,
            vm.vips == old(vm).vips,
            vm.class_defs == old(vm).class_defs,
            vm.fcts == old(vm).fcts,
            vm.impls == old(vm).impls,
            vm.traits == old(vm).traits,
            vm.structs == old(vm).structs,
            vm.tuples == old(vm).tuples,
            vm.types == old(vm).types,
        decreases n - i,
    {
        proof {
            assert(all[i as int] == (table@[i as int].0@, table@[i as int].1));
            assert(class_named(old(vm), all[i as int].0));
        }
        let id = internal_class(vm, table[i].0, table[i].1);
        ids.push(id);
        i += 1;
    }
    ids
}

/// Finds the classes and traits that the compiler knows by name, resolves
/// the classes, and adds the classes of free memory.
pub fn internal_classes(vm: &mut VM)
    requires
        old(vm).wf(),
        forall|i: int|
            0 <= i < internal_class_table().len() ==> class_named(
                old(vm),
                #[trigger] internal_class_table()[i].0,
            ),
        trait_named(old(vm), "Stringable"@),
        trait_named(old(vm), "Zero"@),
        trait_named(old(vm), "Iterator"@),
        old(vm).class_defs@.len() + 2 <= usize::MAX,
    ensures
        final(vm).wf(),
        final(vm).classes@ == classes_after_internal_classes(old(vm)),
        final(vm).vips == (KnownElements {
            unit_class: class_of(old(vm), "Unit"@),
            bool_class: class_of(old(vm), "Bool"@),
            uint8_class: class_of(old(vm), "UInt8"@),
            char_class: class_of(old(vm), "Char"@),
            int_class: class_of(old(vm), "Int"@),
            int32_class: class_of(old(vm), "Int32"@),
            int64_class: class_of(old(vm), "Int64"@),
            float_class: class_of(old(vm), "Float"@),
            double_class: class_of(old(vm), "Double"@),
            object_class: class_of(old(vm), "Object"@),
            string_class: class_of(old(vm), "String"@),
            array_class: class_of(old(vm), "Array"@),
            testing_class: class_of(old(vm), "Testing"@),
            stacktrace_class: class_of(old(vm), "Stacktrace"@),
            stacktrace_element_class: class_of(old(vm), "StacktraceElement"@),
            stringable_trait: trait_of(old(vm), "Stringable"@),
            zero_trait: trait_of(old(vm), "Zero"@),
            iterator_trait: Some(trait_of(old(vm), "Iterator"@)),
            cls: KnownClasses { string_buffer: class_of(old(vm), "StringBuffer"@) },
            fct: old(vm).vips.fct,
            free_object_class_def: ClassDefId(old(vm).class_defs@.len() as usize),
            free_array_class_def: ClassDefId((old(vm).class_defs@.len() + 1) as usize),
        }),
        final(vm).class_defs@.len() == old(vm).class_defs@.len() + 2,
        final(vm).class_defs@.subrange(0, old(vm).class_defs@.len() as int) == old(
            vm,
        ).class_defs@,
        is_free_class_def(
            final(vm).class_defs@[old(vm).class_defs@.len() as int],
            ClassDefId(old(vm).class_defs@.len() as usize),
            InstanceSize::Fixed(spec_header_size() as i32),
            spec_header_size(),
            0,
        ),
        is_free_class_def(
            final(vm).class_defs@[(old(vm).class_defs@.len() + 1) as int],
            ClassDefId((old(vm).class_defs@.len() + 1) as usize),
            InstanceSize::FreeArray,
            0,
            spec_ptr_width(),
        ),
        final(vm).interner@ == old(vm).interner@,
        final(vm).sym == old(vm).sym,
        final(vm).fcts == old(vm).fcts,
        final(vm).impls == old(vm).impls,
        final(vm).traits == old(vm).traits,
        final(vm).structs == old(vm).structs,
        final(vm).tuples == old(vm).tuples,
        final(vm).types == old(vm).types,
{
    let ids = find_internal_classes(vm);
    proof {
        let table = internal_class_table();
        assert(table[0].0 == "Unit"@ && table[1].0 == "Bool"@ && table[2].0 == "UInt8"@
            && table[3].0 == "Char"@ && table[4].0 == "Int"@ && table[5].0 == "Int32"@
            && table[6].0 == "Int64"@ && table[7].0 == "Float"@ && table[8].0 == "Double"@
            && table[9].0 == "Object"@ && table[10].0 == "String"@ && table[11].0
            == "StringBuffer"@ && table[12].0 == "Array"@ && table[13].0 == "Testing"@
            && table[14].0 == "Stacktrace"@ && table[15].0 == "StacktraceElement"@);
    }
    let ghost found = *vm;
    vm.vips = with_known_classes(&vm.vips, &ids);
    mark_known_classes(vm);
    let ghost marked = *vm;
    proof {
        assert(trait_named(vm, "Stringable"@));
        assert(trait_named(vm, "Zero"@));
        assert(trait_named(vm, "Iterator"@));
    }
    find_known_traits(vm);
    internal_free_classes(vm);
}

/// The known elements with the classes of the table from `ids`, which holds
/// them in the order of the table.
fn with_known_classes(vips: &KnownElements, ids: &Vec<ClassId>) -> (r: KnownElements)
    requires
        ids@.len() == 16,
    ensures
        r == (KnownElements {
            unit_class: ids@[0],
            bool_class: ids@[1],
            uint8_class: ids@[2],
            char_class: ids@[3],
            int_class: ids@[4],
            int32_class: ids@[5],
            int64_class: ids@[6],
            float_class: ids@[7],
            double_class: ids@[8],
            object_class: ids@[9],
            string_class: ids@[10],
            array_class: ids@[12],
            testing_class: ids@[13],
            stacktrace_class: ids@[14],
            stacktrace_element_class: ids@[15],
            cls: KnownClasses { string_buffer: ids@[11] },
            ..*vips
        }),
{
    KnownElements {
        unit_class: ids[0],
        bool_class: ids[1],
        uint8_class: ids[2],
        char_class: ids[3],
        int_class: ids[4],
        int32_class: ids[5],
        int64_class: ids[6],
        float_class: ids[7],
        double_class: ids[8],
        object_class: ids[9],
        string_class: ids[10],
        array_class: ids[12],
        testing_class: ids[13],
        stacktrace_class: ids[14],
        stacktrace_element_class: ids[15],
        stringable_trait: vips.stringable_trait,
        zero_trait: vips.zero_trait,
        iterator_trait: vips.iterator_trait,
        cls: KnownClasses { string_buffer: ids[11] },
        fct: vips.fct,
        free_object_class_def: vips.free_object_class_def,
        free_array_class_def: vips.free_array_class_def,
    }
}

/// Marks the known class of strings and the known class of arrays.
fn mark_known_classes(vm: &mut VM)
    requires
        old(vm).wf(),
        old(vm).vips.string_class.0 < old(vm).classes@.len(),
        old(vm).vips.array_class.0 < old(vm).classes@.len(),
    ensures
        final(vm).wf(),
        final(vm).classes@ == old(vm).classes@.update(
            old(vm).vips.string_class.0 as int,
            string_class(old(vm).classes@[old(vm).vips.string_class.0 as int]),
        ).update(
            old(vm).vips.array_class.0 as int,
            array_class(
                old(vm).classes@.update(
                    old(vm).vips.string_class.0 as int,
                    string_class(old(vm).classes@[old(vm).vips.string_class.0 as int]),
                )[old(vm).vips.array_class.0 as int],
            ),
        ),
        final(vm).interner == old(vm).interner,
        final(vm).sym == old(vm).sym,
        final(vm).vips == old(vm).vips,
        final(vm).class_defs == old(vm).class_defs,
        final(vm).fcts == old(vm).fcts,
        final(vm).impls == old(vm).impls,
        final(vm).traits == old(vm).traits,
        final(vm).structs == old(vm).structs,
        final(vm).tuples == old(vm).tuples,
        final(vm).types == old(vm).types,
{
    let ghost found = vm.classes@;
    let string = vm.vips.string_class;
    vm.classes[string.0].is_str = true;
    let ghost marked = vm.classes@;
    proof {
        assert(marked =~= found.update(string.0 as int, string_class(found[string.0 as int])));
    }
    let array = vm.vips.array_class;
    vm.classes[array.0].is_array = true;
    proof {
        assert(vm.classes@ =~= marked.update(array.0 as int, array_class(marked[array.0 as int])));
    }
}

/// Finds the traits `Stringable`, `Zero` and `Iterator`.
fn find_known_traits(vm: &mut VM)
    requires
        old(vm).interner.wf(),
        trait_named(old(vm), "Stringable"@),
        trait_named(old(vm), "Zero"@),
        trait_named(old(vm), "Iterator"@),
    ensures
        final(vm).vips == (KnownElements {
            stringable_trait: trait_of(old(vm), "Stringable"@),
            zero_trait: trait_of(old(vm), "Zero"@),
            iterator_trait: Some(trait_of(old(vm), "Iterator"@)),
            ..old(vm).vips
        }),
        final(vm).interner == old(vm).interner,
        final(vm).sym == old(vm).sym,
        final(vm).classes == old(vm).classes,
        final(vm).class_defs == old(vm).class_defs,
        final(vm).fcts == old(vm).fcts,
        final(vm).impls == old(vm).impls,
        final(vm).traits == old(vm).traits,
        final(vm).structs == old(vm).structs,
        final(vm).tuples == old(vm).tuples,
        final(vm).types == old(vm).types,
{
    let stringable = find_trait(vm, "Stringable");
    let zero = find_trait(vm, "Zero");
    let iterator = find_trait(vm, "Iterator");
    vm.vips.stringable_trait = stringable;
    vm.vips.zero_trait = zero;
    vm.vips.iterator_trait = Some(iterator);
}

} // verus!
