//! The context of a compilation: what the front end has resolved about
//! names, classes, functions, structs and tuples, held as plain values.

use vstd::prelude::*;
use crate::sym::{Sym, SymTable};
use crate::ty::{BuiltinType, Types};

verus! {

#[derive(Debug, Copy, Clone, Hash, PartialEq, Eq, Structural)]
pub struct ClassId(pub usize);

#[derive(Debug, Copy, Clone, Hash, PartialEq, Eq, Structural)]
pub struct ClassDefId(pub usize);

#[derive(Debug, Copy, Clone, Hash, PartialEq, Eq, Structural)]
pub struct FctId(pub usize);

#[derive(Debug, Copy, Clone, Hash, PartialEq, Eq, Structural)]
pub struct ImplId(pub usize);

#[derive(Debug, Copy, Clone, Hash, PartialEq, Eq, Structural)]
pub struct StructId(pub usize);

#[derive(Debug, Copy, Clone, Hash, PartialEq, Eq, Structural)]
pub struct TraitId(pub usize);

#[derive(Debug, Copy, Clone, Hash, PartialEq, Eq, Structural)]
pub struct TupleId(pub usize);

#[derive(Debug, Copy, Clone, Hash, PartialEq, Eq, Structural)]
pub struct TypeParamId(pub usize);

impl TypeParamId {
    pub fn idx(self) -> (r: usize)
        ensures
            r == self.0,
    {
        self.0
    }
}

impl ClassDefId {
    pub fn to_usize(self) -> (r: usize)
        ensures
            r == self.0,
    {
        self.0
    }
}

/// An interned string.
#[derive(Debug, Copy, Clone, Hash, PartialEq, Eq, Structural)]
pub struct Name(pub usize);

/// The table of interned strings: every string once, named by its index.
pub struct Interner {
    names: Vec<String>,
}

impl View for Interner {
    type V = Seq<Seq<char>>;

    closed spec fn view(&self) -> Seq<Seq<char>> {
        Seq::new(self.names@.len(), |i: int| self.names@[i]@)
    }
}

/// Whether `s` is among `names`.
pub open spec fn is_interned(names: Seq<Seq<char>>, s: Seq<char>) -> bool {
    exists|i: int| 0 <= i < names.len() && #[trigger] names[i] == s
}

impl Interner {
    /// No string is in the table twice.
    pub open spec fn wf(&self) -> bool {
        &&& self@.len() <= usize::MAX
        &&& forall|i: int, j: int|
            0 <= i < j < self@.len() ==> #[trigger] self@[i] != #[trigger] self@[j]
    }

    pub fn new() -> (interner: Interner)
        ensures
            interner@ == Seq::<Seq<char>>::empty(),
            interner.wf(),
    {
        let interner = Interner { names: Vec::new() };
        assert(interner@ =~= Seq::<Seq<char>>::empty());
        interner
    }

    /// The name of `name`, where the table holds it.
    pub fn lookup(&self, name: &str) -> (r: Option<Name>)
        ensures
            match r {
                Some(n) => n.0 < self@.len() && self@[n.0 as int] == name@,
                None => !is_interned(self@, name@),
            },
    {
        let owned = name.to_owned();
        let n = self.names.len();
        let mut i: usize = 0;
        while i < n
            invariant
                i <= n,
                n == self.names@.len(),
                owned@ == name@,
                forall|j: int| 0 <= j < i ==> #[trigger] self@[j] != name@,
            decreases n - i,
        {
            if self.names[i] == owned {
                return Some(Name(i));
            }
            i += 1;
        }
        None
    }

    /// The name of `name`; the table takes the string in where it does not
    /// hold it yet.
    pub fn intern(&mut self, name: &str) -> (r: Name)
        ensures
            final(self)@ == if is_interned(old(self)@, name@) {
                old(self)@
            } else {
                old(self)@.push(name@)
            },
            r.0 < final(self)@.len(),
            final(self)@[r.0 as int] == name@,
            old(self).wf() ==> final(self).wf(),
    {
        match self.lookup(name) {
            Some(found) => found,
            None => {
                let r = Name(self.names.len());
                self.names.push(name.to_owned());
                let n = self.names.len();
                proof {
                    assert(self@ =~= old(self)@.push(name@));
                }
                r
            },
        }
    }

    /// The string that `name` stands for.
    pub fn str(&self, name: Name) -> (r: &String)
        requires
            name.0 < self@.len(),
        ensures
            r@ == self@[name.0 as int],
    {
        &self.names[name.0]
    }
}

/// The operations that the code generator emits in place of a call.
#[derive(Debug, Copy, Clone, PartialEq, Eq, Structural)]
pub enum Intrinsic {
    Assert,
    Debug,
    DefaultValue,
    ByteToInt64,
    ByteToInt32,
    ByteToChar,
    ByteEq,
    ByteCmp,
    ByteNot,
    CharToInt64,
    CharToInt32,
    CharEq,
    CharCmp,
    Int32ToByte,
    Int32ToChar,
    IntPtrToInt32,
    Int32ToInt64,
    Int32ToFloat,
    Int32ToDouble,
    ReinterpretInt32AsFloat,
    Int32Eq,
    Int32Cmp,
    Int32Add,
    Int32Sub,
    Int32Mul,
    Int32Div,
    Int32Mod,
    Int32Or,
    Int32And,
    Int32Xor,
    Int32Shl,
    Int32Shr,
    Int32Sar,
    Int32RotateLeft,
    Int32RotateRight,
    Int32Plus,
    Int32Neg,
    Int32Not,
    Int64ToChar,
    Int64ToInt32,
    Int64ToByte,
    Int64ToFloat,
    Int64ToDouble,
    ReinterpretInt64AsDouble,
    Int64Eq,
    Int64Cmp,
    Int64Add,
    Int64Sub,
    Int64Mul,
    Int64Div,
    Int64Mod,
    Int64Or,
    Int64And,
    Int64Xor,
    Int64Shl,
    Int64Shr,
    Int64Sar,
    Int64RotateLeft,
    Int64RotateRight,
    Int64Plus,
    Int64Neg,
    Int64Not,
    BoolToInt32,
    BoolToInt64,
    BoolEq,
    BoolNot,
    StrLen,
    StrGet,
    FloatToInt32,
    FloatToInt64,
    PromoteFloatToDouble,
    ReinterpretFloatAsInt,
    FloatEq,
    FloatCmp,
    FloatAdd,
    FloatSub,
    FloatMul,
    FloatDiv,
    FloatPlus,
    FloatNeg,
    FloatIsNan,
    FloatSqrt,
    DoubleToInt32,
    DoubleToInt64,
    DemoteDoubleToFloat,
    ReinterpretDoubleAsInt64,
    DoubleEq,
    DoubleCmp,
    DoubleAdd,
    DoubleSub,
    DoubleMul,
    DoubleDiv,
    DoublePlus,
    DoubleNeg,
    DoubleIsNan,
    DoubleSqrt,
    GenericArrayLen,
    GenericArrayGet,
    GenericArraySet,
    Int32CountZeroBits,
    Int32CountOneBits,
    Int32CountZeroBitsLeading,
    Int32CountOneBitsLeading,
    Int32CountZeroBitsTrailing,
    Int32CountOneBitsTrailing,
    Int64CountZeroBits,
    Int64CountOneBits,
    Int64CountZeroBitsLeading,
    Int64CountOneBitsLeading,
    Int64CountZeroBitsTrailing,
    Int64CountOneBitsTrailing,
}

/// The functions of the runtime that compiled code calls.
#[derive(Debug, Copy, Clone, PartialEq, Eq, Structural)]
pub enum NativeFct {
    FatalError,
    Abort,
    Exit,
    Print,
    Println,
    Argc,
    Argv,
    GcCollect,
    Timestamp,
    GcMinorCollect,
    Sleep,
    Bytecode,
    Call,
    ByteToString,
    CharToString,
    IntToString,
    LongToString,
    Strcmp,
    StrToIntSuccess,
    StrToLongSuccess,
    StrToInt,
    StrToLong,
    Strcat,
    StrClone,
    StrFromBytes,
    FloatToString,
    DoubleToString,
    RetrieveStackTrace,
    StackElement,
    SpawnThread,
}

/// How a function comes to its code.
#[derive(Debug, Copy, Clone, PartialEq, Eq, Structural)]
pub enum FctKind {
    /// Compiled from its source.
    Source,
    /// Declared without a body.
    Definition,
    /// A function of the runtime.
    Native(NativeFct),
    /// Emitted in place by the code generator.
    Builtin(Intrinsic),
}

/// What the context knows of one function or method.
#[derive(Debug, Clone, PartialEq, Eq)]
pub struct Fct {
    pub name: Name,
    pub is_static: bool,
    pub internal: bool,
    pub internal_resolved: bool,
    pub kind: FctKind,
    pub params_types: Vec<BuiltinType>,
    pub return_type: BuiltinType,
}

/// What the context knows of one class.
#[derive(Debug, Clone, PartialEq, Eq)]
pub struct Class {
    pub name: Name,
    pub ty: BuiltinType,
    pub parent_class: Option<ClassId>,
    pub internal: bool,
    pub internal_resolved: bool,
    pub is_str: bool,
    pub is_array: bool,
    pub methods: Vec<FctId>,
    pub impls: Vec<ImplId>,
}

/// The implementation of a trait for a class.
#[derive(Debug, Clone, PartialEq, Eq)]
pub struct ImplData {
    pub trait_id: Option<TraitId>,
    pub methods: Vec<FctId>,
}

/// What the context knows of one trait.
#[derive(Debug, Copy, Clone, PartialEq, Eq)]
pub struct TraitData {
    pub name: Name,
}

/// The layout of a struct.
#[derive(Debug, Copy, Clone, PartialEq, Eq)]
pub struct StructData {
    pub name: Name,
    pub size: i32,
    pub align: i32,
}

/// The layout of one tuple shape: its size and alignment, and where inside
/// it the references lie.
#[derive(Debug, Clone, PartialEq, Eq)]
pub struct Tuple {
    pub size: i32,
    pub align: i32,
    pub references: Vec<i32>,
}

impl Tuple {
    /// Every reference lies inside the tuple.
    pub open spec fn wf(&self) -> bool {
        forall|i: int|
            0 <= i < self.references@.len() ==> 0 <= (#[trigger] self.references@[i]) < self.size
    }

    pub fn size(&self) -> (r: i32)
        ensures
            r == self.size,
    {
        self.size
    }

    pub fn align(&self) -> (r: i32)
        ensures
            r == self.align,
    {
        self.align
    }

    pub fn references(&self) -> (r: &Vec<i32>)
        ensures
            r@ == self.references@,
    {
        &self.references
    }
}

/// How large the instances of a class are.
#[derive(Debug, Copy, Clone, PartialEq, Eq, Structural)]
pub enum InstanceSize {
    Fixed(i32),
    FreeArray,
}

/// The table of methods of a class, with the sizes that the collector reads.
#[derive(Debug, Clone, PartialEq, Eq)]
pub struct VTable {
    pub classptr: ClassDefId,
    pub instance_size: usize,
    pub element_size: usize,
    pub table: Vec<usize>,
}

/// A field of a class with its type arguments filled in.
#[derive(Debug, Copy, Clone, PartialEq, Eq)]
pub struct FieldDef {
    pub offset: i32,
    pub ty: BuiltinType,
}

/// One class with its type arguments filled in.
#[derive(Debug, Clone, PartialEq, Eq)]
pub struct ClassDef {
    pub id: ClassDefId,
    pub cls_id: Option<ClassId>,
    pub type_params: Vec<BuiltinType>,
    pub parent_id: Option<ClassDefId>,
    pub size: InstanceSize,
    pub fields: Vec<FieldDef>,
    pub ref_fields: Vec<i32>,
    pub vtable: Option<VTable>,
}

/// The classes that the compiler knows by name.
#[derive(Debug, Copy, Clone, PartialEq, Eq)]
pub struct KnownClasses {
    pub string_buffer: ClassId,
}

/// The functions that the compiler knows by name.
#[derive(Debug, Copy, Clone, PartialEq, Eq)]
pub struct KnownFunctions {
    pub string_buffer_empty: FctId,
    pub string_buffer_append: FctId,
    pub string_buffer_to_string: FctId,
}

/// The classes, traits and functions that the compiler itself refers to.
#[derive(Debug, Copy, Clone, PartialEq, Eq)]
pub struct KnownElements {
    pub unit_class: ClassId,
    pub bool_class: ClassId,
    pub uint8_class: ClassId,
    pub char_class: ClassId,
    pub int_class: ClassId,
    pub int32_class: ClassId,
    pub int64_class: ClassId,
    pub float_class: ClassId,
    pub double_class: ClassId,
    pub object_class: ClassId,
    pub string_class: ClassId,
    pub array_class: ClassId,
    pub testing_class: ClassId,
    pub stacktrace_class: ClassId,
    pub stacktrace_element_class: ClassId,
    pub stringable_trait: TraitId,
    pub zero_trait: TraitId,
    pub iterator_trait: Option<TraitId>,
    pub cls: KnownClasses,
    pub fct: KnownFunctions,
    pub free_object_class_def: ClassDefId,
    pub free_array_class_def: ClassDefId,
}

impl KnownElements {
    pub fn new() -> (r: KnownElements)
        ensures
            r == KnownElements::unknown(),
    {
        KnownElements {
            unit_class: ClassId(0),
            bool_class: ClassId(0),
            uint8_class: ClassId(0),
            char_class: ClassId(0),
            int_class: ClassId(0),
            int32_class: ClassId(0),
            int64_class: ClassId(0),
            float_class: ClassId(0),
            double_class: ClassId(0),
            object_class: ClassId(0),
            string_class: ClassId(0),
            array_class: ClassId(0),
            testing_class: ClassId(0),
            stacktrace_class: ClassId(0),
            stacktrace_element_class: ClassId(0),
            stringable_trait: TraitId(0),
            zero_trait: TraitId(0),
            iterator_trait: None,
            cls: KnownClasses { string_buffer: ClassId(0) },
            fct: KnownFunctions {
                string_buffer_empty: FctId(0),
                string_buffer_append: FctId(0),
                string_buffer_to_string: FctId(0),
            },
            free_object_class_def: ClassDefId(0),
            free_array_class_def: ClassDefId(0),
        }
    }
}

/// What a compilation reads of the program around it.
pub struct VM {
    pub interner: Interner,
    pub sym: SymTable,
    pub vips: KnownElements,
    pub classes: Vec<Class>,
    pub class_defs: Vec<ClassDef>,
    pub fcts: Vec<Fct>,
    pub impls: Vec<ImplData>,
    pub traits: Vec<TraitData>,
    pub structs: Vec<StructData>,
    pub tuples: Vec<Tuple>,
    pub types: Types,
}

impl VM {
    /// The tables of the context refer to what the context holds: every
    /// method of a class and of an impl is a function of the context, every
    /// impl of a class is one of its impls, and every tuple shape is well
    /// formed.
    pub open spec fn wf(&self) -> bool {
        &&& self.interner.wf()
        &&& forall|k: usize| #[trigger] self.sym@.contains_key(k) ==> k < self.interner@.len()
        &&& forall|i: int| 0 <= i < self.tuples@.len() ==> (#[trigger] self.tuples@[i]).wf()
        &&& forall|c: int, m: int|
            0 <= c < self.classes@.len() && 0 <= m < self.classes@[c].methods@.len() ==> (
            #[trigger] self.classes@[c].methods@[m]).0 < self.fcts@.len()
        &&& forall|c: int, m: int|
            0 <= c < self.classes@.len() && 0 <= m < self.classes@[c].impls@.len() ==> (
            #[trigger] self.classes@[c].impls@[m]).0 < self.impls@.len()
        &&& forall|c: int, m: int|
            0 <= c < self.impls@.len() && 0 <= m < self.impls@[c].methods@.len() ==> (
            #[trigger] self.impls@[c].methods@[m]).0 < self.fcts@.len()
        &&& forall|c: int|
            0 <= c < self.classes@.len() ==> ((#[trigger] self.classes@[c]).parent_class matches Some(
                p,
            ) ==> p.0 < self.classes@.len())
        &&& forall|f: int|
            0 <= f < self.fcts@.len() ==> (#[trigger] self.fcts@[f]).name.0 < self.interner@.len()
        &&& forall|k: usize| #[trigger]
            self.sym@.contains_key(k) ==> match self.sym@[k] {
                Sym::SymClass(id) => id.0 < self.classes@.len(),
                Sym::SymTrait(id) => id.0 < self.traits@.len(),
                Sym::SymFct(id) => id.0 < self.fcts@.len(),
                _ => true,
            }
    }

    /// Whether the class `sup` is reached from the class `cls` by going from
    /// a class to its parent at most `steps` times.
    pub open spec fn spec_subclass_from(&self, cls: ClassId, sup: ClassId, steps: nat) -> bool
        decreases steps,
    {
        if cls == sup {
            true
        } else if steps == 0 {
            false
        } else {
            match self.classes@[cls.0 as int].parent_class {
                Some(parent) => self.spec_subclass_from(parent, sup, (steps - 1) as nat),
                None => false,
            }
        }
    }

    /// Whether the class `cls` is the class `sup` or has it among its
    /// ancestors. A chain of parents is followed over as many classes as the
    /// context holds.
    pub fn subclass_from(&self, cls: ClassId, sup: ClassId) -> (r: bool)
        requires
            self.wf(),
            cls.0 < self.classes@.len(),
        ensures
            r == self.spec_subclass_from(cls, sup, self.classes@.len()),
    {
        let mut class = cls;
        let mut steps: usize = self.classes.len();
        loop
            invariant
                self.wf(),
                class.0 < self.classes@.len(),
                steps <= self.classes@.len(),
                self.spec_subclass_from(cls, sup, self.classes@.len())
                    == self.spec_subclass_from(class, sup, steps as nat),
            decreases steps,
        {
            if class == sup {
                return true;
            }
            if steps == 0 {
                return false;
            }
            match self.classes[class.0].parent_class {
                Some(parent) => {
                    class = parent;
                    steps -= 1;
                },
                None => {
                    return false;
                },
            }
        }
    }

    /// A context that knows nothing yet.
    pub fn new() -> (vm: VM)
        ensures
            vm.wf(),
            vm.interner@ == Seq::<Seq<char>>::empty(),
            vm.sym@ == Map::<usize, crate::sym::Sym>::empty(),
            vm.classes@.len() == 0,
            vm.class_defs@.len() == 0,
            vm.fcts@.len() == 0,
            vm.impls@.len() == 0,
            vm.traits@.len() == 0,
            vm.structs@.len() == 0,
            vm.tuples@.len() == 0,
            vm.types.values().len() == 0,
            vm.types.wf(),
            vm.types.classes() == Seq::<Option<ClassId>>::empty(),
            vm.vips == KnownElements::unknown(),
    {
        VM {
            interner: Interner::new(),
            sym: SymTable::new(),
            vips: KnownElements::new(),
            classes: Vec::new(),
            class_defs: Vec::new(),
            fcts: Vec::new(),
            impls: Vec::new(),
            traits: Vec::new(),
            structs: Vec::new(),
            tuples: Vec::new(),
            types: Types::new(),
        }
    }

    /// Takes a function into the context and makes its name stand for it.
    /// Where the name stands for something already, the context stays as it
    /// is.
    pub fn add_function(&mut self, fct: Fct) -> (r: Result<FctId, ()>)
        ensures
            match r {
                Ok(id) => {
                    &&& !old(self).sym@.contains_key(fct.name.0)
                    &&& id.0 == old(self).fcts@.len()
                    &&& final(self).fcts@ == old(self).fcts@.push(fct)
                    &&& final(self).sym@ == old(self).sym@.insert(fct.name.0, Sym::SymFct(id))
                },
                Err(_) => {
                    &&& old(self).sym@.contains_key(fct.name.0)
                    &&& final(self).fcts@ == old(self).fcts@
                    &&& final(self).sym@ == old(self).sym@
                },
            },
            final(self).interner == old(self).interner,
            final(self).vips == old(self).vips,
            final(self).classes == old(self).classes,
            final(self).class_defs == old(self).class_defs,
            final(self).impls == old(self).impls,
            final(self).traits == old(self).traits,
            final(self).structs == old(self).structs,
            final(self).tuples == old(self).tuples,
            final(self).types == old(self).types,
    {
        let id = FctId(self.fcts.len());
        match self.sym.insert(fct.name, Sym::SymFct(id)) {
            Ok(()) => {
                self.fcts.push(fct);
                Ok(id)
            },
            Err(_) => Err(()),
        }
    }

    pub fn get_tuple(&self, id: TupleId) -> (r: &Tuple)
        requires
            id.0 < self.tuples@.len(),
        ensures
            *r == self.tuples@[id.0 as int],
    {
        &self.tuples[id.0]
    }
}

impl KnownElements {
    /// The known elements of a context that has found none of them yet:
    /// every class, trait and function is the first of its kind, and no
    /// trait of iterators is known.
    pub open spec fn unknown() -> KnownElements {
        KnownElements {
            unit_class: ClassId(0),
            bool_class: ClassId(0),
            uint8_class: ClassId(0),
            char_class: ClassId(0),
            int_class: ClassId(0),
            int32_class: ClassId(0),
            int64_class: ClassId(0),
            float_class: ClassId(0),
            double_class: ClassId(0),
            object_class: ClassId(0),
            string_class: ClassId(0),
            array_class: ClassId(0),
            testing_class: ClassId(0),
            stacktrace_class: ClassId(0),
            stacktrace_element_class: ClassId(0),
            stringable_trait: TraitId(0),
            zero_trait: TraitId(0),
            iterator_trait: None,
            cls: KnownClasses { string_buffer: ClassId(0) },
            fct: KnownFunctions {
                string_buffer_empty: FctId(0),
                string_buffer_append: FctId(0),
                string_buffer_to_string: FctId(0),
            },
            free_object_class_def: ClassDefId(0),
            free_array_class_def: ClassDefId(0),
        }
    }
}

} // verus!
