//! What the code generator of the baseline compiler works with, apart from
//! the stack frame: conditions, the arguments of a call, and where the value
//! of an expression is held.

use vstd::prelude::*;
use crate::cpu::{AnyReg, FReg, Reg};
use crate::frame::ManagedStackSlot;
use crate::sym::NodeId;
use crate::ty::BuiltinType;
use crate::vm::{ClassDefId, FctId};

verus! {

/// The outcome of a comparison that an instruction tests.
#[derive(Debug, Copy, Clone, PartialEq, Eq, Structural)]
pub enum CondCode {
    Zero,
    NonZero,
    Equal,
    NotEqual,
    Greater,
    GreaterEq,
    Less,
    LessEq,
    UnsignedGreater,
    UnsignedGreaterEq,
    UnsignedLess,
    UnsignedLessEq,
}

/// An argument of a call as the call names it: an expression of the syntax
/// tree, a value on the stack, or the object of the call.
#[derive(Debug, Copy, Clone, PartialEq, Eq)]
pub enum Arg {
    Expr(NodeId),
    Stack(i32),
    SelfieNew,
    Selfie,
}

/// An argument of a call together with its type.
#[derive(Debug, Copy, Clone, PartialEq, Eq)]
pub enum InternalArg {
    Array(NodeId, BuiltinType),
    Expr(NodeId, BuiltinType),
    Stack(i32, BuiltinType),
    SelfieNew(BuiltinType),
    Selfie(BuiltinType),
}

impl InternalArg {
    /// The type of the argument.
    pub fn ty(&self) -> (r: BuiltinType)
        ensures
            r == (match *self {
                InternalArg::Array(_, ty) => ty,
                InternalArg::Expr(_, ty) => ty,
                InternalArg::Stack(_, ty) => ty,
                InternalArg::Selfie(ty) => ty,
                InternalArg::SelfieNew(ty) => ty,
            }),
    {
        match *self {
            InternalArg::Array(_, ty) => ty,
            InternalArg::Expr(_, ty) => ty,
            InternalArg::Stack(_, ty) => ty,
            InternalArg::Selfie(ty) => ty,
            InternalArg::SelfieNew(ty) => ty,
        }
    }

    pub fn is_selfie_new(&self) -> (r: bool)
        ensures
            r == (*self is SelfieNew),
    {
        match *self {
            InternalArg::SelfieNew(_) => true,
            _ => false,
        }
    }
}

/// The arguments of a call that are passed as one array.
#[derive(Debug, Clone, PartialEq, Eq)]
pub struct VariadicArrayDescriptor {
    pub cls_def_id: ClassDefId,
    pub start: usize,
    pub count: usize,
}

/// One call with all that the code generator needs of it.
#[derive(Debug, Clone, PartialEq, Eq)]
pub struct CallSite {
    pub callee: FctId,
    pub cls_type_params: Vec<BuiltinType>,
    pub fct_type_params: Vec<BuiltinType>,
    pub args: Vec<InternalArg>,
    pub super_call: bool,
    pub variadic_array: Option<VariadicArrayDescriptor>,
    pub return_type: BuiltinType,
}

/// Where the value of an expression is held.
#[derive(Debug, Copy, Clone, PartialEq, Eq)]
pub enum ExprStore {
    Stack(ManagedStackSlot),
    Reg(Reg),
    FloatReg(FReg),
    /// The expression has no value that is held anywhere.
    Empty,
}

impl ExprStore {
    pub fn stack_slot(&self) -> (r: ManagedStackSlot)
        requires
            *self is Stack,
        ensures
            *self == ExprStore::Stack(r),
    {
        match self {
            ExprStore::Stack(slot) => *slot,
            _ => vstd::pervasive::unreached(),
        }
    }

    pub fn stack_offset(&self) -> (r: i32)
        requires
            *self is Stack,
        ensures
            r == self->Stack_0.offset,
    {
        match self {
            ExprStore::Stack(slot) => slot.offset(),
            _ => vstd::pervasive::unreached(),
        }
    }

    pub fn reg(&self) -> (r: Reg)
        requires
            *self is Reg,
        ensures
            *self == ExprStore::Reg(r),
    {
        match self {
            ExprStore::Reg(reg) => *reg,
            _ => vstd::pervasive::unreached(),
        }
    }

    pub fn freg(&self) -> (r: FReg)
        requires
            *self is FloatReg,
        ensures
            *self == ExprStore::FloatReg(r),
    {
        match self {
            ExprStore::FloatReg(reg) => *reg,
            _ => vstd::pervasive::unreached(),
        }
    }

    pub fn any_reg(&self) -> (r: AnyReg)
        requires
            *self is Reg || *self is FloatReg,
        ensures
            r == (match *self {
                ExprStore::Reg(reg) => AnyReg::Reg(reg),
                _ => AnyReg::FReg(self->FloatReg_0),
            }),
    {
        match self {
            ExprStore::Reg(reg) => AnyReg::Reg(*reg),
            ExprStore::FloatReg(reg) => AnyReg::FReg(*reg),
            _ => vstd::pervasive::unreached(),
        }
    }

    pub fn is_none(&self) -> (r: bool)
        ensures
            r == (*self is Empty),
    {
        match self {
            ExprStore::Empty => true,
            _ => false,
        }
    }

}

impl From<Reg> for ExprStore {
    fn from(reg: Reg) -> (r: ExprStore) {
        ExprStore::Reg(reg)
    }
}

impl vstd::std_specs::convert::FromSpecImpl<Reg> for ExprStore {
    open spec fn obeys_from_spec() -> bool {
        true
    }

    open spec fn from_spec(reg: Reg) -> ExprStore {
        ExprStore::Reg(reg)
    }
}

impl From<FReg> for ExprStore {
    fn from(reg: FReg) -> (r: ExprStore) {
        ExprStore::FloatReg(reg)
    }
}

impl vstd::std_specs::convert::FromSpecImpl<FReg> for ExprStore {
    open spec fn obeys_from_spec() -> bool {
        true
    }

    open spec fn from_spec(reg: FReg) -> ExprStore {
        ExprStore::FloatReg(reg)
    }
}

} // verus!
