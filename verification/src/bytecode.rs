//! The instructions of the register machine, the constants they refer to,
//! and a function's code as it is kept.

use vstd::prelude::*;
use crate::vm::{ClassDefId, TupleId};

pub mod opcode;

verus! {

/// A register of a function's register file.
#[derive(Debug, Copy, Clone, PartialEq, Eq, Hash, Structural)]
pub struct Register(pub usize);

/// A position in encoded code, in bytes from its start.
#[derive(Debug, Copy, Clone, PartialEq, Eq, Hash, Structural)]
pub struct BytecodeOffset(pub u32);

impl BytecodeOffset {
    pub fn to_u32(&self) -> (r: u32)
        ensures
            r == self.0,
    {
        self.0
    }
}

/// A place in a function's constant pool.
#[derive(Debug, Copy, Clone, PartialEq, Eq, Hash, Structural)]
pub struct ConstPoolIdx(pub usize);

/// A function with its type arguments filled in.
#[derive(Debug, Copy, Clone, PartialEq, Eq, Hash, Structural)]
pub struct FctDefId(pub usize);

/// A field of a class.
#[derive(Debug, Copy, Clone, PartialEq, Eq, Hash, Structural)]
pub struct FieldId(pub usize);

/// A global variable.
#[derive(Debug, Copy, Clone, PartialEq, Eq, Hash, Structural)]
pub struct GlobalId(pub u32);

/// A place in the source text.
#[derive(Debug, Copy, Clone, PartialEq, Eq, Hash, Structural)]
pub struct Position {
    pub line: u32,
    pub column: u32,
}

/// A constant that is too wide to stand in an instruction. A float is held
/// by the bits of its IEEE 754 form.
#[derive(Debug, Clone, PartialEq, Eq)]
pub enum ConstPoolEntry {
    String(String),
    Float32(u32),
    Float64(u64),
    Int32(i32),
    Int64(i64),
    Char(char),
}

impl ConstPoolEntry {
    pub fn to_string(&self) -> (r: Option<&String>)
        ensures
            r == (match *self {
                ConstPoolEntry::String(s) => Some(&s),
                _ => None,
            }),
    {
        match self {
            ConstPoolEntry::String(ref value) => Some(value),
            _ => None,
        }
    }

    pub fn to_float(&self) -> (r: Option<u32>)
        ensures
            r == (match *self {
                ConstPoolEntry::Float32(bits) => Some(bits),
                _ => None,
            }),
    {
        match self {
            ConstPoolEntry::Float32(value) => Some(*value),
            _ => None,
        }
    }

    pub fn to_double(&self) -> (r: Option<u64>)
        ensures
            r == (match *self {
                ConstPoolEntry::Float64(bits) => Some(bits),
                _ => None,
            }),
    {
        match self {
            ConstPoolEntry::Float64(value) => Some(*value),
            _ => None,
        }
    }

    pub fn to_int(&self) -> (r: Option<i32>)
        ensures
            r == (match *self {
                ConstPoolEntry::Int32(value) => Some(value),
                _ => None,
            }),
    {
        match self {
            ConstPoolEntry::Int32(value) => Some(*value),
            _ => None,
        }
    }

    pub fn to_int64(&self) -> (r: Option<i64>)
        ensures
            r == (match *self {
                ConstPoolEntry::Int64(value) => Some(value),
                _ => None,
            }),
    {
        match self {
            ConstPoolEntry::Int64(value) => Some(*value),
            _ => None,
        }
    }

    pub fn to_char(&self) -> (r: Option<char>)
        ensures
            r == (match *self {
                ConstPoolEntry::Char(value) => Some(value),
                _ => None,
            }),
    {
        match self {
            ConstPoolEntry::Char(value) => Some(*value),
            _ => None,
        }
    }
}

/// The code of one function as it is kept: the encoded instructions, the
/// constant pool, and the source position of the instructions.
#[derive(Debug)]
pub struct BytecodeFunction {
    code: Vec<u8>,
    const_pool: Vec<ConstPoolEntry>,
    positions: Vec<(u32, Position)>,
}

impl BytecodeFunction {
    /// The encoded instructions.
    pub closed spec fn spec_code(&self) -> Seq<u8> {
        self.code@
    }

    /// The constant pool.
    pub closed spec fn pool(&self) -> Seq<ConstPoolEntry> {
        self.const_pool@
    }

    /// The source position of the instructions, by their offsets.
    pub closed spec fn spec_positions(&self) -> Seq<(u32, Position)> {
        self.positions@
    }

    /// One past the last offset of the code.
    pub open spec fn end(&self) -> int {
        self.spec_code().len() as int
    }

    /// Every offset of the code is a `u32`.
    pub open spec fn wf(&self) -> bool {
        self.end() <= u32::MAX
    }

    pub fn new(
        code: Vec<u8>,
        const_pool: Vec<ConstPoolEntry>,
        positions: Vec<(u32, Position)>,
    ) -> (bc: BytecodeFunction)
        ensures
            bc.spec_code() == code@,
            bc.pool() == const_pool@,
            bc.spec_positions() == positions@,
    {
        BytecodeFunction { code, const_pool, positions }
    }

    pub fn code(&self) -> (r: &Vec<u8>)
        ensures
            r@ == self.spec_code(),
    {
        &self.code
    }

    pub fn const_pool(&self, idx: ConstPoolIdx) -> (r: &ConstPoolEntry)
        requires
            idx.0 < self.pool().len(),
        ensures
            *r == self.pool()[idx.0 as int],
    {
        &self.const_pool[idx.0]
    }

    /// How many constants the pool holds.
    pub fn const_pool_len(&self) -> (r: usize)
        ensures
            r == self.pool().len(),
    {
        self.const_pool.len()
    }

    pub fn positions(&self) -> (r: &Vec<(u32, Position)>)
        ensures
            r@ == self.spec_positions(),
    {
        &self.positions
    }
}

/// One instruction, with every operand resolved: a jump names the index of
/// the instruction it leads to, a constant is the value itself. Each
/// instruction is typed by its name; a float constant is held by the bits of
/// its IEEE 754 form.
#[derive(PartialEq, Debug)]
pub enum Bytecode {
    AddInt(Register, Register, Register),
    AddInt64(Register, Register, Register),
    AddFloat(Register, Register, Register),
    AddDouble(Register, Register, Register),

    SubInt(Register, Register, Register),
    SubInt64(Register, Register, Register),
    SubFloat(Register, Register, Register),
    SubDouble(Register, Register, Register),

    NegInt(Register, Register),
    NegInt64(Register, Register),
    NegFloat(Register, Register),
    NegDouble(Register, Register),

    MulInt(Register, Register, Register),
    MulInt64(Register, Register, Register),
    MulFloat(Register, Register, Register),
    MulDouble(Register, Register, Register),

    DivInt(Register, Register, Register),
    DivInt64(Register, Register, Register),
    DivFloat(Register, Register, Register),
    DivDouble(Register, Register, Register),

    ModInt(Register, Register, Register),
    ModInt64(Register, Register, Register),

    AndInt(Register, Register, Register),
    AndInt64(Register, Register, Register),
    OrInt(Register, Register, Register),
    OrInt64(Register, Register, Register),
    XorInt(Register, Register, Register),
    XorInt64(Register, Register, Register),
    NotBool(Register, Register),
    NotInt(Register, Register),
    NotInt64(Register, Register),

    ShlInt(Register, Register, Register),
    ShrInt(Register, Register, Register),
    SarInt(Register, Register, Register),

    ShlInt64(Register, Register, Register),
    ShrInt64(Register, Register, Register),
    SarInt64(Register, Register, Register),

    RolInt(Register, Register, Register),
    RorInt(Register, Register, Register),

    RolInt64(Register, Register, Register),
    RorInt64(Register, Register, Register),

    ReinterpretFloatAsInt(Register, Register),
    ReinterpretIntAsFloat(Register, Register),
    ReinterpretDoubleAsInt64(Register, Register),
    ReinterpretInt64AsDouble(Register, Register),

    ExtendByteToChar(Register, Register),
    ExtendByteToInt(Register, Register),
    ExtendByteToInt64(Register, Register),
    ExtendIntToInt64(Register, Register),
    ExtendCharToInt64(Register, Register),
    CastCharToInt(Register, Register),
    CastIntToUInt8(Register, Register),
    CastIntToChar(Register, Register),
    CastInt64ToUInt8(Register, Register),
    CastInt64ToChar(Register, Register),
    CastInt64ToInt(Register, Register),

    ConvertIntToFloat(Register, Register),
    ConvertIntToDouble(Register, Register),
    ConvertInt64ToFloat(Register, Register),
    ConvertInt64ToDouble(Register, Register),

    TruncateFloatToInt(Register, Register),
    TruncateFloatToInt64(Register, Register),
    TruncateDoubleToInt(Register, Register),
    TruncateDoubleToInt64(Register, Register),

    InstanceOf(Register, Register, ClassDefId),
    CheckedCast(Register, ClassDefId),

    MovBool(Register, Register),
    MovUInt8(Register, Register),
    MovChar(Register, Register),
    MovInt(Register, Register),
    MovInt64(Register, Register),
    MovFloat(Register, Register),
    MovDouble(Register, Register),
    MovPtr(Register, Register),
    MovTuple(Register, Register, TupleId),

    StoreTupleElement(Register, Register, TupleId, u32),
    LoadTupleElement(Register, Register, TupleId, u32),

    LoadFieldBool(Register, Register, ClassDefId, FieldId),
    LoadFieldUInt8(Register, Register, ClassDefId, FieldId),
    LoadFieldChar(Register, Register, ClassDefId, FieldId),
    LoadFieldInt(Register, Register, ClassDefId, FieldId),
    LoadFieldInt64(Register, Register, ClassDefId, FieldId),
    LoadFieldFloat(Register, Register, ClassDefId, FieldId),
    LoadFieldDouble(Register, Register, ClassDefId, FieldId),
    LoadFieldPtr(Register, Register, ClassDefId, FieldId),

    StoreFieldBool(Register, Register, ClassDefId, FieldId),
    StoreFieldUInt8(Register, Register, ClassDefId, FieldId),
    StoreFieldChar(Register, Register, ClassDefId, FieldId),
    StoreFieldInt(Register, Register, ClassDefId, FieldId),
    StoreFieldInt64(Register, Register, ClassDefId, FieldId),
    StoreFieldFloat(Register, Register, ClassDefId, FieldId),
    StoreFieldDouble(Register, Register, ClassDefId, FieldId),
    StoreFieldPtr(Register, Register, ClassDefId, FieldId),

    LoadGlobalBool(Register, GlobalId),
    LoadGlobalUInt8(Register, GlobalId),
    LoadGlobalChar(Register, GlobalId),
    LoadGlobalInt(Register, GlobalId),
    LoadGlobalInt64(Register, GlobalId),
    LoadGlobalFloat(Register, GlobalId),
    LoadGlobalDouble(Register, GlobalId),
    LoadGlobalPtr(Register, GlobalId),

    StoreGlobalBool(Register, GlobalId),
    StoreGlobalUInt8(Register, GlobalId),
    StoreGlobalChar(Register, GlobalId),
    StoreGlobalInt(Register, GlobalId),
    StoreGlobalInt64(Register, GlobalId),
    StoreGlobalFloat(Register, GlobalId),
    StoreGlobalDouble(Register, GlobalId),
    StoreGlobalPtr(Register, GlobalId),

    PushRegister(Register),

    ConstNil(Register),
    ConstTrue(Register),
    ConstFalse(Register),
    ConstZeroUInt8(Register),
    ConstZeroChar(Register),
    ConstZeroInt(Register),
    ConstZeroInt64(Register),
    ConstZeroFloat(Register),
    ConstZeroDouble(Register),
    ConstUInt8(Register, u8),
    ConstChar(Register, char),
    ConstInt(Register, i32),
    ConstInt64(Register, i64),
    ConstFloat(Register, u32),
    ConstDouble(Register, u64),
    ConstString(Register, String),

    TestEqPtr(Register, Register, Register),
    TestNePtr(Register, Register, Register),

    TestEqBool(Register, Register, Register),
    TestNeBool(Register, Register, Register),

    TestEqUInt8(Register, Register, Register),
    TestNeUInt8(Register, Register, Register),
    TestGtUInt8(Register, Register, Register),
    TestGeUInt8(Register, Register, Register),
    TestLtUInt8(Register, Register, Register),
    TestLeUInt8(Register, Register, Register),

    TestEqChar(Register, Register, Register),
    TestNeChar(Register, Register, Register),
    TestGtChar(Register, Register, Register),
    TestGeChar(Register, Register, Register),
    TestLtChar(Register, Register, Register),
    TestLeChar(Register, Register, Register),

    TestEqEnum(Register, Register, Register),
    TestNeEnum(Register, Register, Register),

    TestEqInt(Register, Register, Register),
    TestNeInt(Register, Register, Register),
    TestGtInt(Register, Register, Register),
    TestGeInt(Register, Register, Register),
    TestLtInt(Register, Register, Register),
    TestLeInt(Register, Register, Register),

    TestEqInt64(Register, Register, Register),
    TestNeInt64(Register, Register, Register),
    TestGtInt64(Register, Register, Register),
    TestGeInt64(Register, Register, Register),
    TestLtInt64(Register, Register, Register),
    TestLeInt64(Register, Register, Register),

    TestEqFloat(Register, Register, Register),
    TestNeFloat(Register, Register, Register),
    TestGtFloat(Register, Register, Register),
    TestGeFloat(Register, Register, Register),
    TestLtFloat(Register, Register, Register),
    TestLeFloat(Register, Register, Register),

    TestEqDouble(Register, Register, Register),
    TestNeDouble(Register, Register, Register),
    TestGtDouble(Register, Register, Register),
    TestGeDouble(Register, Register, Register),
    TestLtDouble(Register, Register, Register),
    TestLeDouble(Register, Register, Register),

    Assert(Register),

    JumpLoop(usize),
    Jump(usize),
    JumpIfFalse(Register, usize),
    JumpIfTrue(Register, usize),

    InvokeDirectVoid(FctDefId, u32),
    InvokeDirectBool(Register, FctDefId, u32),
    InvokeDirectUInt8(Register, FctDefId, u32),
    InvokeDirectChar(Register, FctDefId, u32),
    InvokeDirectInt(Register, FctDefId, u32),
    InvokeDirectInt64(Register, FctDefId, u32),
    InvokeDirectFloat(Register, FctDefId, u32),
    InvokeDirectDouble(Register, FctDefId, u32),
    InvokeDirectPtr(Register, FctDefId, u32),

    InvokeVirtualVoid(FctDefId, u32),
    InvokeVirtualBool(Register, FctDefId, u32),
    InvokeVirtualUInt8(Register, FctDefId, u32),
    InvokeVirtualChar(Register, FctDefId, u32),
    InvokeVirtualInt(Register, FctDefId, u32),
    InvokeVirtualInt64(Register, FctDefId, u32),
    InvokeVirtualFloat(Register, FctDefId, u32),
    InvokeVirtualDouble(Register, FctDefId, u32),
    InvokeVirtualPtr(Register, FctDefId, u32),

    InvokeStaticVoid(FctDefId, u32),
    InvokeStaticBool(Register, FctDefId, u32),
    InvokeStaticUInt8(Register, FctDefId, u32),
    InvokeStaticChar(Register, FctDefId, u32),
    InvokeStaticInt(Register, FctDefId, u32),
    InvokeStaticInt64(Register, FctDefId, u32),
    InvokeStaticFloat(Register, FctDefId, u32),
    InvokeStaticDouble(Register, FctDefId, u32),
    InvokeStaticPtr(Register, FctDefId, u32),

    NewObject(Register, ClassDefId),
    NewArray(Register, ClassDefId, Register),

    NilCheck(Register),

    ArrayLength(Register, Register),
    ArrayBoundCheck(Register, Register),

    LoadArrayBool(Register, Register, Register),
    LoadArrayUInt8(Register, Register, Register),
    LoadArrayChar(Register, Register, Register),
    LoadArrayInt(Register, Register, Register),
    LoadArrayInt64(Register, Register, Register),
    LoadArrayFloat(Register, Register, Register),
    LoadArrayDouble(Register, Register, Register),
    LoadArrayPtr(Register, Register, Register),

    StoreArrayBool(Register, Register, Register),
    StoreArrayUInt8(Register, Register, Register),
    StoreArrayChar(Register, Register, Register),
    StoreArrayInt(Register, Register, Register),
    StoreArrayInt64(Register, Register, Register),
    StoreArrayFloat(Register, Register, Register),
    StoreArrayDouble(Register, Register, Register),
    StoreArrayPtr(Register, Register, Register),

    RetVoid,
    RetBool(Register),
    RetUInt8(Register),
    RetChar(Register),
    RetInt(Register),
    RetInt64(Register),
    RetFloat(Register),
    RetDouble(Register),
    RetPtr(Register),
}

} // verus!
