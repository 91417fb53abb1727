//! The semantic types of values, and how the machine represents them.

use vstd::prelude::*;
use vstd::string::StringExecFns;
use crate::mem::{ptr_width, spec_ptr_width};
use crate::vm::{ClassId, StructId, TraitId, TupleId, TypeParamId, VM};

verus! {

#[derive(Debug, Copy, Clone, Hash, PartialEq, Eq, Structural)]
pub struct TypeId(pub usize);

#[derive(Debug, Copy, Clone, Hash, PartialEq, Eq, Structural)]
pub enum BuiltinType {
    /// The type with the one value `()`.
    Unit,
    Char,
    Byte,
    Int,
    Long,
    Float,
    Double,
    Bool,
    /// The type of `nil`, until the final type is known.
    Nil,
    /// A pointer to an object.
    Ptr,
    /// The type `Self`.
    This,
    Str,
    Class(ClassId),
    Struct(StructId),
    Trait(TraitId),
    TypeParam(TypeParamId),
    /// A class with type arguments, which the type table holds.
    Generic(TypeId),
    /// A tuple, laid out as the tuple registry says.
    Tuple(TupleId),
}

impl BuiltinType {
    pub fn is_unit(&self) -> (r: bool)
        ensures
            r == (*self is Unit),
    {
        match *self {
            BuiltinType::Unit => true,
            _ => false,
        }
    }

    pub fn is_nil(&self) -> (r: bool)
        ensures
            r == (*self is Nil),
    {
        match *self {
            BuiltinType::Nil => true,
            _ => false,
        }
    }

    pub fn is_cls(&self) -> (r: bool)
        ensures
            r == (*self is Class),
    {
        match *self {
            BuiltinType::Class(_) => true,
            _ => false,
        }
    }

    pub fn is_str(&self) -> (r: bool)
        ensures
            r == (*self is Str),
    {
        match *self {
            BuiltinType::Str => true,
            _ => false,
        }
    }

    pub fn is_float(&self) -> (r: bool)
        ensures
            r == (*self is Float || *self is Double),
    {
        match *self {
            BuiltinType::Float | BuiltinType::Double => true,
            _ => false,
        }
    }

    pub fn is_generic(&self) -> (r: bool)
        ensures
            r == (*self is Generic),
    {
        match *self {
            BuiltinType::Generic(_) => true,
            _ => false,
        }
    }

    pub fn is_type_param(&self) -> (r: bool)
        ensures
            r == (*self is TypeParam),
    {
        match *self {
            BuiltinType::TypeParam(_) => true,
            _ => false,
        }
    }

    /// The name that the type table has for a generic type.
    pub fn type_id(&self) -> (r: TypeId)
        requires
            *self is Generic,
        ensures
            *self == BuiltinType::Generic(r),
    {
        match *self {
            BuiltinType::Generic(id) => id,
            _ => TypeId(0),
        }
    }

    /// The class of a class type; for `Str` the class of strings.
    pub open spec fn spec_cls_id(self, vm: &VM) -> ClassId {
        match self {
            BuiltinType::Class(cls_id) => cls_id,
            _ => vm.vips.string_class,
        }
    }

    pub fn cls_id(&self, vm: &VM) -> (r: ClassId)
        requires
            *self is Class || *self is Str,
        ensures
            r == self.spec_cls_id(vm),
    {
        match *self {
            BuiltinType::Class(cls_id) => cls_id,
            _ => vm.vips.string_class,
        }
    }

    /// Whether the type is no generic type, or one for which the type table
    /// has a class.
    pub open spec fn specializable(self, vm: &VM) -> bool {
        self matches BuiltinType::Generic(id) ==> id.0 < vm.types.classes().len()
            && vm.types.classes()[id.0 as int] is Some
    }

    /// The class that was made for a generic type; every other type itself.
    pub open spec fn spec_to_specialized(self, vm: &VM) -> BuiltinType {
        match self {
            BuiltinType::Generic(id) => BuiltinType::Class(vm.types.classes()[id.0 as int]->0),
            _ => self,
        }
    }

    pub fn to_specialized(&self, vm: &VM) -> (r: BuiltinType)
        requires
            self.specializable(vm),
        ensures
            r == self.spec_to_specialized(vm),
            !(r is Generic),
    {
        match *self {
            BuiltinType::Generic(id) => {
                let cls_id = vm.types.get_cls_id(id);
                BuiltinType::Class(cls_id.unwrap())
            },
            _ => *self,
        }
    }

    /// Whether both types are references and the class of this type is the
    /// class of `ty` or has it among its ancestors.
    pub open spec fn spec_subclass_from(self, vm: &VM, ty: BuiltinType) -> bool {
        self.spec_reference_type() && ty.spec_reference_type() && vm.spec_subclass_from(
            self.spec_cls_id(vm),
            ty.spec_cls_id(vm),
            vm.classes@.len(),
        )
    }

    pub fn subclass_from(&self, vm: &VM, ty: BuiltinType) -> (r: bool)
        requires
            vm.wf(),
            self.spec_reference_type() && ty.spec_reference_type() ==> {
                &&& *self is Class || *self is Str
                &&& ty is Class || ty is Str
                &&& self.spec_cls_id(vm).0 < vm.classes@.len()
            },
        ensures
            r == self.spec_subclass_from(vm, ty),
    {
        if !self.reference_type() {
            return false;
        }
        if !ty.reference_type() {
            return false;
        }
        let cls_id = self.cls_id(vm);
        vm.subclass_from(cls_id, ty.cls_id(vm))
    }

    /// Whether a value of the type `other` may stand where this type is
    /// asked for. Calling this is an error for `nil`, pointers, `Self` and
    /// traits, and where `other` is a reference without a class.
    pub open spec fn can_allow(self, vm: &VM, other: BuiltinType) -> bool
        decreases (if self is Generic { 1nat } else { 0nat }),
    {
        match self {
            BuiltinType::Nil | BuiltinType::Ptr | BuiltinType::This | BuiltinType::Trait(_) => false,
            BuiltinType::Str | BuiltinType::Class(_) => {
                ||| self == other
                ||| other is Nil
                ||| !other.spec_reference_type()
                ||| (other is Class || other is Str) && other.spec_cls_id(vm).0
                    < vm.classes@.len()
            },
            BuiltinType::Generic(_) => self == other || (self.specializable(vm)
                && self.spec_to_specialized(vm).can_allow(vm, other)),
            _ => true,
        }
    }

    /// A class or `Str` allows itself, `nil` and its subclasses; a generic
    /// type allows itself and what its class allows; every other type allows
    /// itself alone.
    pub open spec fn spec_allows(self, vm: &VM, other: BuiltinType) -> bool
        decreases (if self is Generic { 1nat } else { 0nat }),
    {
        match self {
            BuiltinType::Str | BuiltinType::Class(_) => self == other || other is Nil
                || other.spec_subclass_from(vm, self),
            BuiltinType::Generic(_) => self == other || self.spec_to_specialized(vm).spec_allows(
                vm,
                other,
            ),
            _ => self == other,
        }
    }

    pub fn allows(&self, vm: &VM, other: BuiltinType) -> (r: bool)
        requires
            vm.wf(),
            self.can_allow(vm, other),
        ensures
            r == self.spec_allows(vm, other),
        decreases (if *self is Generic { 2nat } else { 0nat }) + (if other is Generic {
            1nat
        } else {
            0nat
        }),
    {
        match *self {
            BuiltinType::Unit
            | BuiltinType::Bool
            | BuiltinType::Byte
            | BuiltinType::Char
            | BuiltinType::Struct(_)
            | BuiltinType::Tuple(_) => *self == other,
            BuiltinType::Int => *self == other,
            BuiltinType::Long => *self == other,
            BuiltinType::Float | BuiltinType::Double => *self == other,
            BuiltinType::Str | BuiltinType::Class(_) => {
                *self == other || other.is_nil() || other.subclass_from(vm, *self) || (
                other.is_generic() && self.allows(vm, other.to_specialized(vm)))
            },
            BuiltinType::TypeParam(_) => *self == other,
            BuiltinType::Generic(_) => {
                *self == other || self.to_specialized(vm).allows(vm, other)
            },
            BuiltinType::Nil | BuiltinType::Ptr | BuiltinType::This | BuiltinType::Trait(_) => false,
        }
    }

    /// Whether the type has a name in `vm` that is found within `depth`
    /// levels of type arguments: a pointer has none, and a class, struct or
    /// trait must be known to `vm` under an interned name.
    pub open spec fn nameable(self, vm: &VM, depth: nat) -> bool
        decreases depth, 0nat, 0nat,
    {
        match self {
            BuiltinType::Ptr | BuiltinType::Tuple(_) => false,
            BuiltinType::Class(cid) => cid.0 < vm.classes@.len() && vm.classes@[cid.0 as int].name.0
                < vm.interner@.len(),
            BuiltinType::Struct(sid) => sid.0 < vm.structs@.len() && vm.structs@[sid.0 as int].name.0
                < vm.interner@.len(),
            BuiltinType::Trait(tid) => tid.0 < vm.traits@.len() && vm.traits@[tid.0 as int].name.0
                < vm.interner@.len(),
            BuiltinType::Generic(id) => depth > 0 && id.0 < vm.types.values().len()
                && vm.types.values()[id.0 as int].0.nameable(vm, (depth - 1) as nat)
                && all_nameable(
                vm.types.values()[id.0 as int].1,
                vm,
                (depth - 1) as nat,
                vm.types.values()[id.0 as int].1.len() as int,
            ),
            _ => true,
        }
    }

    /// The name of the type. A generic type is named by its class and, in
    /// angle brackets, its type arguments with `, ` between them; a type
    /// variable by `#` and its number.
    pub open spec fn spec_name(self, vm: &VM, depth: nat) -> Seq<char>
        decreases depth, 0nat, 0nat,
    {
        match self {
            BuiltinType::Unit => "()"@,
            BuiltinType::Byte => "byte"@,
            BuiltinType::Char => "char"@,
            BuiltinType::Int => "int"@,
            BuiltinType::Long => "long"@,
            BuiltinType::Float => "float"@,
            BuiltinType::Double => "float"@,
            BuiltinType::Bool => "bool"@,
            BuiltinType::Nil => "nil"@,
            BuiltinType::Ptr | BuiltinType::Tuple(_) => Seq::empty(),
            BuiltinType::This => "Self"@,
            BuiltinType::Str => "Str"@,
            BuiltinType::Class(cid) => vm.interner@[vm.classes@[cid.0 as int].name.0 as int],
            BuiltinType::Struct(sid) => vm.interner@[vm.structs@[sid.0 as int].name.0 as int],
            BuiltinType::Trait(tid) => vm.interner@[vm.traits@[tid.0 as int].name.0 as int],
            BuiltinType::TypeParam(id) => "#"@ + decimal(id.0 as nat),
            BuiltinType::Generic(id) => if depth == 0 {
                Seq::empty()
            } else {
                let (base, params) = vm.types.values()[id.0 as int];
                base.spec_name(vm, (depth - 1) as nat) + "<"@ + joined_names(
                    params,
                    vm,
                    (depth - 1) as nat,
                    params.len() as int,
                ) + ">"@
            },
        }
    }

    /// The name of the type, with as many levels of type arguments as the
    /// type table holds types.
    pub fn name(&self, vm: &VM) -> (r: String)
        requires
            self.nameable(vm, vm.types.values().len()),
        ensures
            r@ == self.spec_name(vm, vm.types.values().len()),
    {
        self.name_within(vm, vm.types.len())
    }

    /// The name of the type, with at most `depth` levels of type arguments.
    pub fn name_within(&self, vm: &VM, depth: usize) -> (r: String)
        requires
            self.nameable(vm, depth as nat),
        ensures
            r@ == self.spec_name(vm, depth as nat),
        decreases depth,
    {
        match *self {
            BuiltinType::Unit => String::from_str("()"),
            BuiltinType::Byte => String::from_str("byte"),
            BuiltinType::Char => String::from_str("char"),
            BuiltinType::Int => String::from_str("int"),
            BuiltinType::Long => String::from_str("long"),
            BuiltinType::Float => String::from_str("float"),
            BuiltinType::Double => String::from_str("float"),
            BuiltinType::Bool => String::from_str("bool"),
            BuiltinType::Nil => String::from_str("nil"),
            BuiltinType::Ptr | BuiltinType::Tuple(_) => String::new(),
            BuiltinType::This => String::from_str("Self"),
            BuiltinType::Str => String::from_str("Str"),
            BuiltinType::Class(cid) => vm.interner.str(vm.classes[cid.0].name).clone(),
            BuiltinType::Struct(sid) => vm.interner.str(vm.structs[sid.0].name).clone(),
            BuiltinType::Trait(tid) => vm.interner.str(vm.traits[tid.0].name).clone(),
            BuiltinType::TypeParam(id) => {
                let mut name = String::from_str("#");
                let number = decimal_string(id.idx());
                name.append(number.as_str());
                name
            },
            BuiltinType::Generic(id) => {
                let generic = vm.types.get(id);
                let ghost params = generic.params@;
                let mut name = generic.base.name_within(vm, depth - 1);
                let ghost base = name@;
                name.append("<");
                let n = generic.params.len();
                let mut i: usize = 0;
                while i < n
                    invariant
                        i <= n,
                        n == params.len(),
                        params == generic.params@,
                        depth > 0,
                        all_nameable(params, vm, (depth - 1) as nat, n as int),
                        name@ == base + "<"@ + joined_names(
                            params,
                            vm,
                            (depth - 1) as nat,
                            i as int,
                        ),
                    decreases n - i,
                {
                    proof {
                        lemma_all_nameable(params, vm, (depth - 1) as nat, n as int, i as int);
                    }
                    if i > 0 {
                        name.append(", ");
                    }
                    let param = generic.params[i].name_within(vm, depth - 1);
                    name.append(param.as_str());
                    proof {
                        let d = (depth - 1) as nat;
                        let before = base + "<"@ + joined_names(params, vm, d, i as int);
                        if i > 0 {
                            assert(name@ =~= base + "<"@ + (joined_names(params, vm, d, i as int)
                                + ", "@ + params[i as int].spec_name(vm, d)));
                        } else {
                            assert(joined_names(params, vm, d, 0) =~= Seq::<char>::empty());
                            assert(name@ =~= base + "<"@ + (Seq::<char>::empty()
                                + params[i as int].spec_name(vm, d)));
                        }
                    }
                    i += 1;
                }
                name.append(">");
                name
            },
        }
    }

    /// `other` for `nil`, and the type itself otherwise.
    pub fn if_nil(&self, other: BuiltinType) -> (r: BuiltinType)
        ensures
            r == (if *self is Nil {
                other
            } else {
                *self
            }),
    {
        if self.is_nil() {
            other
        } else {
            *self
        }
    }

    /// Whether the machine has a mode for values of the type.
    pub open spec fn has_mode(self) -> bool {
        match self {
            BuiltinType::Unit
            | BuiltinType::Nil
            | BuiltinType::This
            | BuiltinType::Struct(_)
            | BuiltinType::Trait(_)
            | BuiltinType::TypeParam(_)
            | BuiltinType::Tuple(_) => false,
            _ => true,
        }
    }

    pub open spec fn spec_mode(self) -> MachineMode {
        match self {
            BuiltinType::Bool | BuiltinType::Byte => MachineMode::Int8,
            BuiltinType::Char | BuiltinType::Int => MachineMode::Int32,
            BuiltinType::Long => MachineMode::Int64,
            BuiltinType::Float => MachineMode::Float32,
            BuiltinType::Double => MachineMode::Float64,
            _ => MachineMode::Ptr,
        }
    }

    /// How the machine holds a value of the type.
    pub fn mode(&self) -> (r: MachineMode)
        requires
            self.has_mode(),
        ensures
            r == self.spec_mode(),
    {
        match *self {
            BuiltinType::Bool => MachineMode::Int8,
            BuiltinType::Byte => MachineMode::Int8,
            BuiltinType::Char => MachineMode::Int32,
            BuiltinType::Int => MachineMode::Int32,
            BuiltinType::Long => MachineMode::Int64,
            BuiltinType::Float => MachineMode::Float32,
            BuiltinType::Double => MachineMode::Float64,
            _ => MachineMode::Ptr,
        }
    }

    /// The types whose values are stored in place.
    pub open spec fn spec_value_type(self) -> bool {
        match self {
            BuiltinType::Unit
            | BuiltinType::Bool
            | BuiltinType::Byte
            | BuiltinType::Char
            | BuiltinType::Int
            | BuiltinType::Long
            | BuiltinType::Float
            | BuiltinType::Double
            | BuiltinType::Struct(_)
            | BuiltinType::Tuple(_) => true,
            _ => false,
        }
    }

    /// The types whose values are references to objects.
    pub open spec fn spec_reference_type(self) -> bool {
        !self.spec_value_type()
    }

    pub fn reference_type(&self) -> (r: bool)
        ensures
            r == self.spec_reference_type(),
    {
        !self.value_type()
    }

    pub fn value_type(&self) -> (r: bool)
        ensures
            r == self.spec_value_type(),
    {
        match *self {
            BuiltinType::Unit
            | BuiltinType::Bool
            | BuiltinType::Byte
            | BuiltinType::Char
            | BuiltinType::Int
            | BuiltinType::Long
            | BuiltinType::Float
            | BuiltinType::Double
            | BuiltinType::Struct(_)
            | BuiltinType::Tuple(_) => true,
            _ => false,
        }
    }

    /// The shape of a tuple type.
    pub fn tuple_id(&self) -> (r: Option<TupleId>)
        ensures
            r == (match *self {
                BuiltinType::Tuple(id) => Some(id),
                _ => None,
            }),
    {
        match *self {
            BuiltinType::Tuple(id) => Some(id),
            _ => None,
        }
    }

    /// Whether the type has a size in `vm`: `nil`, `Self` and type variables
    /// have none, and a struct or tuple must be known to `vm`.
    pub open spec fn has_size(self, vm: &VM) -> bool {
        match self {
            BuiltinType::Nil | BuiltinType::This | BuiltinType::TypeParam(_) => false,
            BuiltinType::Struct(id) => id.0 < vm.structs@.len(),
            BuiltinType::Tuple(id) => id.0 < vm.tuples@.len(),
            BuiltinType::Generic(_) => self.specializable(vm),
            _ => true,
        }
    }

    /// The size of a value of the type, in bytes.
    pub open spec fn spec_size(self, vm: &VM) -> int {
        match self {
            BuiltinType::Unit => 0,
            BuiltinType::Bool => 1,
            BuiltinType::Byte => 1,
            BuiltinType::Char => 4,
            BuiltinType::Int => 4,
            BuiltinType::Long => 8,
            BuiltinType::Float => 4,
            BuiltinType::Double => 8,
            BuiltinType::Str | BuiltinType::Class(_) | BuiltinType::Ptr => spec_ptr_width(),
            BuiltinType::Struct(id) => vm.structs@[id.0 as int].size as int,
            BuiltinType::Trait(_) => 2 * spec_ptr_width(),
            BuiltinType::Generic(_) => spec_ptr_width(),
            BuiltinType::Tuple(id) => vm.tuples@[id.0 as int].size as int,
            BuiltinType::Nil | BuiltinType::This | BuiltinType::TypeParam(_) => 0,
        }
    }

    /// The alignment of a value of the type, in bytes.
    pub open spec fn spec_align(self, vm: &VM) -> int {
        match self {
            BuiltinType::Unit => 0,
            BuiltinType::Bool => 1,
            BuiltinType::Byte => 1,
            BuiltinType::Char => 4,
            BuiltinType::Int => 4,
            BuiltinType::Long => 8,
            BuiltinType::Float => 4,
            BuiltinType::Double => 8,
            BuiltinType::Str | BuiltinType::Class(_) | BuiltinType::Ptr => spec_ptr_width(),
            BuiltinType::Struct(id) => vm.structs@[id.0 as int].align as int,
            BuiltinType::Trait(_) => spec_ptr_width(),
            BuiltinType::Generic(_) => spec_ptr_width(),
            BuiltinType::Tuple(id) => vm.tuples@[id.0 as int].align as int,
            BuiltinType::Nil | BuiltinType::This | BuiltinType::TypeParam(_) => 0,
        }
    }

    pub fn size(&self, vm: &VM) -> (r: i32)
        requires
            self.has_size(vm),
        ensures
            r == self.spec_size(vm),
        decreases (if *self is Generic { 1nat } else { 0nat }),
    {
        match *self {
            BuiltinType::Unit => 0,
            BuiltinType::Bool => 1,
            BuiltinType::Byte => 1,
            BuiltinType::Char => 4,
            BuiltinType::Int => 4,
            BuiltinType::Long => 8,
            BuiltinType::Float => 4,
            BuiltinType::Double => 8,
            BuiltinType::Str | BuiltinType::Class(_) | BuiltinType::Ptr => ptr_width(),
            BuiltinType::Struct(id) => vm.structs[id.0].size,
            BuiltinType::Trait(_) => 2 * ptr_width(),
            BuiltinType::Generic(_) => self.to_specialized(vm).size(vm),
            BuiltinType::Tuple(id) => vm.get_tuple(id).size(),
            BuiltinType::Nil | BuiltinType::This | BuiltinType::TypeParam(_) => 0,
        }
    }

    pub fn align(&self, vm: &VM) -> (r: i32)
        requires
            self.has_size(vm),
        ensures
            r == self.spec_align(vm),
        decreases (if *self is Generic { 1nat } else { 0nat }),
    {
        match *self {
            BuiltinType::Unit => 0,
            BuiltinType::Bool => 1,
            BuiltinType::Byte => 1,
            BuiltinType::Char => 4,
            BuiltinType::Int => 4,
            BuiltinType::Long => 8,
            BuiltinType::Float => 4,
            BuiltinType::Double => 8,
            BuiltinType::Str | BuiltinType::Class(_) | BuiltinType::Ptr => ptr_width(),
            BuiltinType::Struct(id) => vm.structs[id.0].align,
            BuiltinType::Trait(_) => ptr_width(),
            BuiltinType::Generic(_) => self.to_specialized(vm).align(vm),
            BuiltinType::Tuple(id) => vm.get_tuple(id).align(),
            BuiltinType::Nil | BuiltinType::This | BuiltinType::TypeParam(_) => 0,
        }
    }
}

/// Whether each of the first `n` types has a name within `depth` levels.
pub open spec fn all_nameable(params: Seq<BuiltinType>, vm: &VM, depth: nat, n: int) -> bool
    decreases depth, 1nat, n,
{
    if n <= 0 {
        true
    } else {
        all_nameable(params, vm, depth, n - 1) && params[n - 1].nameable(vm, depth)
    }
}

/// The names of the first `n` types, with `, ` between them.
pub open spec fn joined_names(params: Seq<BuiltinType>, vm: &VM, depth: nat, n: int) -> Seq<char>
    decreases depth, 1nat, n,
{
    if n <= 0 {
        Seq::empty()
    } else if n == 1 {
        Seq::empty() + params[0].spec_name(vm, depth)
    } else {
        joined_names(params, vm, depth, n - 1) + ", "@ + params[n - 1].spec_name(vm, depth)
    }
}

proof fn lemma_all_nameable(params: Seq<BuiltinType>, vm: &VM, depth: nat, n: int, i: int)
    requires
        all_nameable(params, vm, depth, n),
        0 <= i < n,
    ensures
        params[i].nameable(vm, depth),
    decreases n,
{
    if i < n - 1 {
        lemma_all_nameable(params, vm, depth, n - 1, i);
    }
}

/// The decimal digit for a number below ten.
pub open spec fn digit(d: nat) -> char {
    if d == 0 {
        '0'
    } else if d == 1 {
        '1'
    } else if d == 2 {
        '2'
    } else if d == 3 {
        '3'
    } else if d == 4 {
        '4'
    } else if d == 5 {
        '5'
    } else if d == 6 {
        '6'
    } else if d == 7 {
        '7'
    } else if d == 8 {
        '8'
    } else {
        '9'
    }
}

/// The decimal digits of a number, the most significant first.
pub open spec fn decimal(n: nat) -> Seq<char>
    decreases n,
{
    if n < 10 {
        seq![digit(n)]
    } else {
        decimal(n / 10).push(digit(n % 10))
    }
}

fn digit_str(d: usize) -> (r: &'static str)
    requires
        d < 10,
    ensures
        r@ == seq![digit(d as nat)],
{
    proof {
        reveal_strlit("0");
        reveal_strlit("1");
        reveal_strlit("2");
        reveal_strlit("3");
        reveal_strlit("4");
        reveal_strlit("5");
        reveal_strlit("6");
        reveal_strlit("7");
        reveal_strlit("8");
        reveal_strlit("9");
    }
    let r = if d == 0 {
        "0"
    } else if d == 1 {
        "1"
    } else if d == 2 {
        "2"
    } else if d == 3 {
        "3"
    } else if d == 4 {
        "4"
    } else if d == 5 {
        "5"
    } else if d == 6 {
        "6"
    } else if d == 7 {
        "7"
    } else if d == 8 {
        "8"
    } else {
        "9"
    };
    assert(r@ =~= seq![digit(d as nat)]);
    r
}

/// A number in decimal digits.
pub fn decimal_string(n: usize) -> (r: String)
    ensures
        r@ == decimal(n as nat),
    decreases n,
{
    if n < 10 {
        String::from_str(digit_str(n))
    } else {
        let mut digits = decimal_string(n / 10);
        digits.append(digit_str(n % 10));
        assert(digits@ =~= decimal((n / 10) as nat).push(digit((n % 10) as nat)));
        digits
    }
}

/// How the machine holds a value.
#[derive(Debug, Copy, Clone, PartialEq, Eq, Structural)]
pub enum MachineMode {
    Int8,
    Int32,
    Int64,
    Float32,
    Float64,
    Ptr,
}

impl MachineMode {
    pub open spec fn spec_size(self) -> int {
        match self {
            MachineMode::Int8 => 1,
            MachineMode::Int32 => 4,
            MachineMode::Int64 => 8,
            MachineMode::Ptr => spec_ptr_width(),
            MachineMode::Float32 => 4,
            MachineMode::Float64 => 8,
        }
    }

    /// The size of a value in this mode, in bytes.
    pub fn size(self) -> (r: i32)
        ensures
            r == self.spec_size(),
    {
        match self {
            MachineMode::Int8 => 1,
            MachineMode::Int32 => 4,
            MachineMode::Int64 => 8,
            MachineMode::Ptr => ptr_width(),
            MachineMode::Float32 => 4,
            MachineMode::Float64 => 8,
        }
    }

    pub fn is_float(self) -> (r: bool)
        ensures
            r == (self is Float32 || self is Float64),
    {
        match self {
            MachineMode::Float32 | MachineMode::Float64 => true,
            _ => false,
        }
    }
}

/// A class together with its type arguments.
#[derive(Debug, Clone, PartialEq, Eq, Hash)]
pub struct TypeWithParams {
    pub base: BuiltinType,
    pub params: Vec<BuiltinType>,
}

/// Whether two lists of types are the same.
pub fn same_types(a: &Vec<BuiltinType>, b: &Vec<BuiltinType>) -> (r: bool)
    ensures
        r == (a@ == b@),
{
    if a.len() != b.len() {
        return false;
    }
    let n = a.len();
    let mut i: usize = 0;
    while i < n
        invariant
            i <= n,
            n == a@.len(),
            n == b@.len(),
            forall|j: int| 0 <= j < i ==> a@[j] == b@[j],
        decreases n - i,
    {
        if a[i] != b[i] {
            return false;
        }
        i += 1;
    }
    assert(a@ =~= b@);
    true
}

/// The table of generic types: every class with type arguments once, named
/// by its index, and the class that was made for it, once there is one.
pub struct Types {
    values: Vec<TypeWithParams>,
    classes: Vec<Option<ClassId>>,
}

impl Types {
    /// The types of the table, each as its class and its type arguments.
    pub closed spec fn values(&self) -> Seq<(BuiltinType, Seq<BuiltinType>)> {
        Seq::new(self.values@.len(), |i: int| (self.values@[i].base, self.values@[i].params@))
    }

    /// The class made for each type of the table.
    pub closed spec fn classes(&self) -> Seq<Option<ClassId>> {
        self.classes@
    }

    /// Every type is in the table once and has its entry for a class.
    pub open spec fn wf(&self) -> bool {
        &&& self.classes().len() == self.values().len()
        &&& forall|i: int, j: int|
            0 <= i < j < self.values().len() ==> #[trigger] self.values()[i]
                != #[trigger] self.values()[j]
    }

    pub fn new() -> (types: Types)
        ensures
            types.values() == Seq::<(BuiltinType, Seq<BuiltinType>)>::empty(),
            types.classes() == Seq::<Option<ClassId>>::empty(),
            types.wf(),
    {
        let types = Types { values: Vec::new(), classes: Vec::new() };
        assert(types.values() =~= Seq::<(BuiltinType, Seq<BuiltinType>)>::empty());
        types
    }

    pub fn len(&self) -> (r: usize)
        ensures
            r == self.values().len(),
    {
        self.values.len()
    }

    /// The name of the class `ty` with the type arguments `params`; the
    /// table takes the type in where it does not hold it yet.
    pub fn insert(&mut self, ty: BuiltinType, params: Vec<BuiltinType>) -> (id: TypeId)
        requires
            old(self).wf(),
            ty is Class,
        ensures
            final(self).wf(),
            id.0 < final(self).values().len(),
            final(self).values()[id.0 as int] == (ty, params@),
            if exists|i: int|
                0 <= i < old(self).values().len() && #[trigger] old(self).values()[i] == (
                    ty,
                    params@,
                ) {
                &&& final(self).values() == old(self).values()
                &&& final(self).classes() == old(self).classes()
            } else {
                &&& id.0 == old(self).values().len()
                &&& final(self).values() == old(self).values().push((ty, params@))
                &&& final(self).classes() == old(self).classes().push(None)
            },
    {
        let n = self.values.len();
        let mut i: usize = 0;
        while i < n
            invariant
                i <= n,
                n == self.values@.len(),
                *self == *old(self),
                self.wf(),
                forall|j: int| 0 <= j < i ==> #[trigger] self.values()[j] != (ty, params@),
            decreases n - i,
        {
            if self.values[i].base == ty && same_types(&self.values[i].params, &params) {
                assert(self.values()[i as int] == (ty, params@));
                return TypeId(i);
            }
            i += 1;
        }
        let ghost args = params@;
        self.values.push(TypeWithParams { base: ty, params });
        self.classes.push(None);
        proof {
            assert(self.values() =~= old(self).values().push((ty, args)));
        }
        TypeId(n)
    }

    /// Records the class that was made for the type `id`.
    pub fn set_cls_id(&mut self, id: TypeId, cls_id: ClassId)
        requires
            id.0 < old(self).classes().len(),
        ensures
            final(self).classes() == old(self).classes().update(id.0 as int, Some(cls_id)),
            final(self).values() == old(self).values(),
    {
        self.classes[id.0] = Some(cls_id);
    }

    /// The class that was made for the type `id`.
    pub fn get_cls_id(&self, id: TypeId) -> (r: Option<ClassId>)
        requires
            id.0 < self.classes().len(),
        ensures
            r == self.classes()[id.0 as int],
    {
        self.classes[id.0]
    }

    /// The class and the type arguments of the type `id`.
    pub fn get(&self, id: TypeId) -> (r: &TypeWithParams)
        requires
            id.0 < self.values().len(),
        ensures
            (r.base, r.params@) == self.values()[id.0 as int],
    {
        &self.values[id.0]
    }
}

} // verus!
