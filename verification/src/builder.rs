//! Rebuilds the instructions of a function from its decoded code: every
//! instruction with its operands resolved, every jump with the index of the
//! instruction it leads to.

use std::collections::HashMap;
use vstd::prelude::*;
use vstd::std_specs::hash::*;
use vstd::std_specs::iter::IteratorSpec;
use crate::bytecode::{
    Bytecode, BytecodeFunction, BytecodeOffset, ConstPoolEntry, ConstPoolIdx, Register,
};

verus! {

broadcast use vstd::std_specs::hash::group_hash_axioms;

/// One instruction as the reader of encoded code hands it over. A jump holds
/// the distance in bytes to its target, or the place of that distance in the
/// constant pool; a wide constant holds its place in the pool.
#[derive(PartialEq, Debug)]
pub enum Instruction {
    /// An instruction whose operands stand in the instruction itself.
    Plain(Bytecode),
    ConstChar(Register, ConstPoolIdx),
    ConstInt(Register, ConstPoolIdx),
    ConstInt64(Register, ConstPoolIdx),
    ConstFloat(Register, ConstPoolIdx),
    ConstDouble(Register, ConstPoolIdx),
    ConstString(Register, ConstPoolIdx),
    JumpIfFalse(Register, u32),
    JumpIfFalseConst(Register, ConstPoolIdx),
    JumpIfTrue(Register, u32),
    JumpIfTrueConst(Register, ConstPoolIdx),
    /// A jump back, by a distance in bytes.
    JumpLoop(u32),
    Jump(u32),
    JumpConst(ConstPoolIdx),
}

/// The distance that a constant of the pool stands for: its 32 bits read
/// without a sign.
pub open spec fn as_distance(value: i32) -> u32 {
    if value >= 0 {
        value as u32
    } else {
        (value + 0x1_0000_0000) as u32
    }
}

/// Reads the 32 bits of `value` without a sign.
pub fn distance(value: i32) -> (r: u32)
    ensures
        r == as_distance(value),
{
    let r = #[verifier::truncate]
    (value as u32);
    assert(r == as_distance(value)) by (bit_vector)
        requires
            r == #[verifier::truncate]
            (value as u32),
    ;
    r
}

/// Whether the pool holds a 32-bit integer at `idx`.
pub open spec fn holds_int(pool: Seq<ConstPoolEntry>, idx: ConstPoolIdx) -> bool {
    idx.0 < pool.len() && pool[idx.0 as int] is Int32
}

/// The instruction with `idx` as the target where it is a forward jump, and
/// as it is where it is none.
pub open spec fn retarget(inst: Bytecode, idx: usize) -> Bytecode {
    match inst {
        Bytecode::Jump(_) => Bytecode::Jump(idx),
        Bytecode::JumpIfFalse(opnd, _) => Bytecode::JumpIfFalse(opnd, idx),
        Bytecode::JumpIfTrue(opnd, _) => Bytecode::JumpIfTrue(opnd, idx),
        other => other,
    }
}

pub open spec fn is_forward_jump(inst: Bytecode) -> bool {
    inst is Jump || inst is JumpIfFalse || inst is JumpIfTrue
}

/// The code once the first `n` of the deferred jumps have their targets from
/// `table`.
pub open spec fn patched(
    code: Seq<Bytecode>,
    jumps: Seq<(usize, BytecodeOffset)>,
    table: Map<u32, usize>,
    n: int,
) -> Seq<Bytecode>
    decreases n,
{
    if n <= 0 {
        code
    } else {
        let before = patched(code, jumps, table, n - 1);
        let (location, target) = jumps[n - 1];
        before.update(location as int, retarget(before[location as int], table[target.0]))
    }
}

/// Every deferred jump names a forward jump of the code and a target that
/// the table knows.
pub open spec fn patchable(
    code: Seq<Bytecode>,
    jumps: Seq<(usize, BytecodeOffset)>,
    table: Map<u32, usize>,
) -> bool {
    forall|k: int|
        0 <= k < jumps.len() ==> {
            &&& (#[trigger] jumps[k]).0 < code.len()
            &&& is_forward_jump(code[jumps[k].0 as int])
            &&& table.contains_key(jumps[k].1.0)
        }
}

proof fn lemma_patched_shape(
    code: Seq<Bytecode>,
    jumps: Seq<(usize, BytecodeOffset)>,
    table: Map<u32, usize>,
    n: int,
)
    requires
        patchable(code, jumps, table),
        0 <= n <= jumps.len(),
    ensures
        patched(code, jumps, table, n).len() == code.len(),
        forall|i: int|
            0 <= i < code.len() ==> is_forward_jump(#[trigger] patched(code, jumps, table, n)[i])
                == is_forward_jump(code[i]),
    decreases n,
{
    if n > 0 {
        lemma_patched_shape(code, jumps, table, n - 1);
        assert(jumps[n - 1].0 < code.len());
    }
}

/// The state of a pass over the decoded code of one function.
pub struct BytecodeArrayBuilder<'a> {
    bc: &'a BytecodeFunction,
    code: Vec<Bytecode>,
    next_idx: usize,
    offset_to_index: HashMap<u32, usize>,
    pc: BytecodeOffset,
    jumps: Vec<(usize, BytecodeOffset)>,
}

impl<'a> BytecodeArrayBuilder<'a> {
    /// The function whose code is read.
    pub closed spec fn bc(&self) -> &BytecodeFunction {
        self.bc
    }

    /// The instructions emitted so far.
    pub closed spec fn code(&self) -> Seq<Bytecode> {
        self.code@
    }

    /// How many instructions were visited so far.
    pub closed spec fn next_idx(&self) -> int {
        self.next_idx as int
    }

    /// The index of the instruction at each offset visited so far.
    pub closed spec fn offsets(&self) -> Map<u32, usize> {
        self.offset_to_index@
    }

    /// The offset of the instruction visited last.
    pub closed spec fn pc(&self) -> int {
        self.pc.0 as int
    }

    /// The forward jumps that wait for their target: each with its index in
    /// the code and the offset it leads to.
    pub closed spec fn jumps(&self) -> Seq<(usize, BytecodeOffset)> {
        self.jumps@
    }

    pub fn new(bc: &'a BytecodeFunction) -> (builder: BytecodeArrayBuilder<'a>)
        ensures
            builder.bc() == bc,
            builder.code() == Seq::<Bytecode>::empty(),
            builder.next_idx() == 0,
            builder.offsets() == Map::<u32, usize>::empty(),
            builder.pc() == 0,
            builder.jumps() == Seq::<(usize, BytecodeOffset)>::empty(),
    {
        BytecodeArrayBuilder {
            bc,
            code: Vec::new(),
            offset_to_index: HashMap::new(),
            next_idx: 0,
            pc: BytecodeOffset(0),
            jumps: Vec::new(),
        }
    }

    /// Gives every deferred jump its target and hands the instructions out.
    pub fn generate(self) -> (code: Vec<Bytecode>)
        requires
            self.bc().wf(),
            patchable(
                self.code(),
                self.jumps(),
                self.offsets().insert(self.bc().end() as u32, self.next_idx() as usize),
            ),
        ensures
            code@ == patched(
                self.code(),
                self.jumps(),
                self.offsets().insert(self.bc().end() as u32, self.next_idx() as usize),
                self.jumps().len() as int,
            ),
    {
        let mut builder = self;
        builder.resolve_jumps();
        builder.code
    }

    /// Enters the end of the code into the table of offsets, under the
    /// number of instructions, and gives every deferred jump the index that
    /// the table has for its target.
    pub fn resolve_jumps(&mut self)
        requires
            old(self).bc().wf(),
            patchable(
                old(self).code(),
                old(self).jumps(),
                old(self).offsets().insert(
                    old(self).bc().end() as u32,
                    old(self).next_idx() as usize,
                ),
            ),
        ensures
            final(self).offsets() == old(self).offsets().insert(
                old(self).bc().end() as u32,
                old(self).next_idx() as usize,
            ),
            final(self).code() == patched(
                old(self).code(),
                old(self).jumps(),
                final(self).offsets(),
                old(self).jumps().len() as int,
            ),
            final(self).jumps() == Seq::<(usize, BytecodeOffset)>::empty(),
            final(self).bc() == old(self).bc(),
            final(self).next_idx() == old(self).next_idx(),
            final(self).pc() == old(self).pc(),
    {
        let end = self.bc.code().len() as u32;
        self.offset_to_index.insert(end, self.next_idx);
        let mut jumps: Vec<(usize, BytecodeOffset)> = Vec::new();
        std::mem::swap(&mut self.jumps, &mut jumps);
        let ghost table = self.offset_to_index@;
        let ghost code0 = old(self).code();

        let n = jumps.len();
        let mut k: usize = 0;
        while k < n
            invariant
                k <= n,
                n == jumps@.len(),
                jumps@ == old(self).jumps(),
                patchable(code0, jumps@, table),
                self.offset_to_index@ == table,
                self.code@ == patched(code0, jumps@, table, k as int),
                self.bc == old(self).bc,
                self.next_idx == old(self).next_idx,
                self.pc == old(self).pc,
                self.jumps@ == Seq::<(usize, BytecodeOffset)>::empty(),
            decreases n - k,
        {
            let (location, target) = jumps[k];
            proof {
                lemma_patched_shape(code0, jumps@, table, k as int);
                assert(jumps@[k as int].0 < code0.len());
            }
            let found = self.offset_to_index.get(&target.0);
            let idx = *found.unwrap();
            let ghost before = self.code@;
            match &self.code[location] {
                Bytecode::Jump(_) => {
                    self.code[location] = Bytecode::Jump(idx);
                },
                Bytecode::JumpIfFalse(opnd, _) => {
                    let opnd = *opnd;
                    self.code[location] = Bytecode::JumpIfFalse(opnd, idx);
                },
                Bytecode::JumpIfTrue(opnd, _) => {
                    let opnd = *opnd;
                    self.code[location] = Bytecode::JumpIfTrue(opnd, idx);
                },
                _ => {},
            }
            proof {
                assert(self.code@ =~= before.update(
                    location as int,
                    retarget(before[location as int], idx),
                ));
            }
            k += 1;
        }
    }

    /// Appends an instruction.
    pub fn emit(&mut self, inst: Bytecode)
        ensures
            final(self).code() == old(self).code().push(inst),
            final(self).bc() == old(self).bc(),
            final(self).next_idx() == old(self).next_idx(),
            final(self).offsets() == old(self).offsets(),
            final(self).pc() == old(self).pc(),
            final(self).jumps() == old(self).jumps(),
    {
        self.code.push(inst);
    }

    /// Begins the instruction at `offset`: it has the next index.
    pub fn visit_instruction(&mut self, offset: BytecodeOffset)
        requires
            old(self).next_idx() < usize::MAX,
        ensures
            final(self).offsets() == old(self).offsets().insert(
                offset.0,
                old(self).next_idx() as usize,
            ),
            final(self).next_idx() == old(self).next_idx() + 1,
            final(self).pc() == offset.0,
            final(self).bc() == old(self).bc(),
            final(self).code() == old(self).code(),
            final(self).jumps() == old(self).jumps(),
    {
        self.offset_to_index.insert(offset.0, self.next_idx);
        self.next_idx += 1;
        self.pc = offset;
    }

    pub fn visit_const_char(&mut self, dest: Register, idx: ConstPoolIdx)
        requires
            idx.0 < old(self).bc().pool().len(),
            old(self).bc().pool()[idx.0 as int] is Char,
        ensures
            final(self).code() == old(self).code().push(
                Bytecode::ConstChar(dest, old(self).bc().pool()[idx.0 as int]->Char_0),
            ),
            final(self).bc() == old(self).bc(),
            final(self).next_idx() == old(self).next_idx(),
            final(self).offsets() == old(self).offsets(),
            final(self).pc() == old(self).pc(),
            final(self).jumps() == old(self).jumps(),
    {
        let value = self.bc.const_pool(idx).to_char().unwrap();
        self.emit(Bytecode::ConstChar(dest, value));
    }

    pub fn visit_const_int(&mut self, dest: Register, idx: ConstPoolIdx)
        requires
            idx.0 < old(self).bc().pool().len(),
            old(self).bc().pool()[idx.0 as int] is Int32,
        ensures
            final(self).code() == old(self).code().push(
                Bytecode::ConstInt(dest, old(self).bc().pool()[idx.0 as int]->Int32_0),
            ),
            final(self).bc() == old(self).bc(),
            final(self).next_idx() == old(self).next_idx(),
            final(self).offsets() == old(self).offsets(),
            final(self).pc() == old(self).pc(),
            final(self).jumps() == old(self).jumps(),
    {
        let value = self.bc.const_pool(idx).to_int().unwrap();
        self.emit(Bytecode::ConstInt(dest, value));
    }

    pub fn visit_const_int64(&mut self, dest: Register, idx: ConstPoolIdx)
        requires
            idx.0 < old(self).bc().pool().len(),
            old(self).bc().pool()[idx.0 as int] is Int64,
        ensures
            final(self).code() == old(self).code().push(
                Bytecode::ConstInt64(dest, old(self).bc().pool()[idx.0 as int]->Int64_0),
            ),
            final(self).bc() == old(self).bc(),
            final(self).next_idx() == old(self).next_idx(),
            final(self).offsets() == old(self).offsets(),
            final(self).pc() == old(self).pc(),
            final(self).jumps() == old(self).jumps(),
    {
        let value = self.bc.const_pool(idx).to_int64().unwrap();
        self.emit(Bytecode::ConstInt64(dest, value));
    }

    pub fn visit_const_float(&mut self, dest: Register, idx: ConstPoolIdx)
        requires
            idx.0 < old(self).bc().pool().len(),
            old(self).bc().pool()[idx.0 as int] is Float32,
        ensures
            final(self).code() == old(self).code().push(
                Bytecode::ConstFloat(dest, old(self).bc().pool()[idx.0 as int]->Float32_0),
            ),
            final(self).bc() == old(self).bc(),
            final(self).next_idx() == old(self).next_idx(),
            final(self).offsets() == old(self).offsets(),
            final(self).pc() == old(self).pc(),
            final(self).jumps() == old(self).jumps(),
    {
        let value = self.bc.const_pool(idx).to_float().unwrap();
        self.emit(Bytecode::ConstFloat(dest, value));
    }

    pub fn visit_const_double(&mut self, dest: Register, idx: ConstPoolIdx)
        requires
            idx.0 < old(self).bc().pool().len(),
            old(self).bc().pool()[idx.0 as int] is Float64,
        ensures
            final(self).code() == old(self).code().push(
                Bytecode::ConstDouble(dest, old(self).bc().pool()[idx.0 as int]->Float64_0),
            ),
            final(self).bc() == old(self).bc(),
            final(self).next_idx() == old(self).next_idx(),
            final(self).offsets() == old(self).offsets(),
            final(self).pc() == old(self).pc(),
            final(self).jumps() == old(self).jumps(),
    {
        let value = self.bc.const_pool(idx).to_double().unwrap();
        self.emit(Bytecode::ConstDouble(dest, value));
    }

    pub fn visit_const_string(&mut self, dest: Register, idx: ConstPoolIdx)
        requires
            idx.0 < old(self).bc().pool().len(),
            old(self).bc().pool()[idx.0 as int] is String,
        ensures
            final(self).code() == old(self).code().push(
                Bytecode::ConstString(dest, old(self).bc().pool()[idx.0 as int]->String_0),
            ),
            final(self).bc() == old(self).bc(),
            final(self).next_idx() == old(self).next_idx(),
            final(self).offsets() == old(self).offsets(),
            final(self).pc() == old(self).pc(),
            final(self).jumps() == old(self).jumps(),
    {
        let value = self.bc.const_pool(idx).to_string().unwrap().clone();
        self.emit(Bytecode::ConstString(dest, value));
    }

    /// A jump over `offset` bytes if `opnd` is false. The target is not
    /// visited yet: the jump is emitted with the target 0 and deferred.
    pub fn visit_jump_if_false(&mut self, opnd: Register, offset: u32)
        requires
            old(self).pc() + offset <= u32::MAX,
            old(self).next_idx() > 0,
        ensures
            final(self).code() == old(self).code().push(Bytecode::JumpIfFalse(opnd, 0)),
            final(self).jumps() == old(self).jumps().push(
                (
                    (old(self).next_idx() - 1) as usize,
                    BytecodeOffset((old(self).pc() + offset) as u32),
                ),
            ),
            final(self).bc() == old(self).bc(),
            final(self).next_idx() == old(self).next_idx(),
            final(self).offsets() == old(self).offsets(),
            final(self).pc() == old(self).pc(),
    {
        let offset = BytecodeOffset(self.pc.to_u32() + offset);
        self.jumps.push((self.next_idx - 1, offset));
        self.emit(Bytecode::JumpIfFalse(opnd, 0));
    }

    pub fn visit_jump_if_false_const(&mut self, opnd: Register, idx: ConstPoolIdx)
        requires
            holds_int(old(self).bc().pool(), idx),
            old(self).pc() + as_distance(old(self).bc().pool()[idx.0 as int]->Int32_0)
                <= u32::MAX,
            old(self).next_idx() > 0,
        ensures
            final(self).code() == old(self).code().push(Bytecode::JumpIfFalse(opnd, 0)),
            final(self).jumps() == old(self).jumps().push(
                (
                    (old(self).next_idx() - 1) as usize,
                    BytecodeOffset(
                        (old(self).pc() + as_distance(
                            old(self).bc().pool()[idx.0 as int]->Int32_0,
                        )) as u32,
                    ),
                ),
            ),
            final(self).bc() == old(self).bc(),
            final(self).next_idx() == old(self).next_idx(),
            final(self).offsets() == old(self).offsets(),
            final(self).pc() == old(self).pc(),
    {
        let value = self.bc.const_pool(idx).to_int().unwrap();
        self.visit_jump_if_false(opnd, distance(value));
    }

    /// A jump over `offset` bytes if `opnd` is true, deferred like
    /// `visit_jump_if_false`.
    pub fn visit_jump_if_true(&mut self, opnd: Register, offset: u32)
        requires
            old(self).pc() + offset <= u32::MAX,
            old(self).next_idx() > 0,
        ensures
            final(self).code() == old(self).code().push(Bytecode::JumpIfTrue(opnd, 0)),
            final(self).jumps() == old(self).jumps().push(
                (
                    (old(self).next_idx() - 1) as usize,
                    BytecodeOffset((old(self).pc() + offset) as u32),
                ),
            ),
            final(self).bc() == old(self).bc(),
            final(self).next_idx() == old(self).next_idx(),
            final(self).offsets() == old(self).offsets(),
            final(self).pc() == old(self).pc(),
    {
        let offset = BytecodeOffset(self.pc.to_u32() + offset);
        self.jumps.push((self.next_idx - 1, offset));
        self.emit(Bytecode::JumpIfTrue(opnd, 0));
    }

    pub fn visit_jump_if_true_const(&mut self, opnd: Register, idx: ConstPoolIdx)
        requires
            holds_int(old(self).bc().pool(), idx),
            old(self).pc() + as_distance(old(self).bc().pool()[idx.0 as int]->Int32_0)
                <= u32::MAX,
            old(self).next_idx() > 0,
        ensures
            final(self).code() == old(self).code().push(Bytecode::JumpIfTrue(opnd, 0)),
            final(self).jumps() == old(self).jumps().push(
                (
                    (old(self).next_idx() - 1) as usize,
                    BytecodeOffset(
                        (old(self).pc() + as_distance(
                            old(self).bc().pool()[idx.0 as int]->Int32_0,
                        )) as u32,
                    ),
                ),
            ),
            final(self).bc() == old(self).bc(),
            final(self).next_idx() == old(self).next_idx(),
            final(self).offsets() == old(self).offsets(),
            final(self).pc() == old(self).pc(),
    {
        let value = self.bc.const_pool(idx).to_int().unwrap();
        self.visit_jump_if_true(opnd, distance(value));
    }

    /// A jump back over `offset` bytes. Its target was visited before, so
    /// the table of offsets has its index.
    pub fn visit_jump_loop(&mut self, offset: u32)
        requires
            offset <= old(self).pc(),
            old(self).offsets().contains_key((old(self).pc() - offset) as u32),
        ensures
            final(self).code() == old(self).code().push(
                Bytecode::JumpLoop(old(self).offsets()[(old(self).pc() - offset) as u32]),
            ),
            final(self).bc() == old(self).bc(),
            final(self).next_idx() == old(self).next_idx(),
            final(self).offsets() == old(self).offsets(),
            final(self).pc() == old(self).pc(),
            final(self).jumps() == old(self).jumps(),
    {
        let offset = BytecodeOffset(self.pc.to_u32() - offset);
        let found = self.offset_to_index.get(&offset.0);
        let idx = *found.unwrap();
        self.emit(Bytecode::JumpLoop(idx));
    }

    /// A jump over `offset` bytes, deferred like `visit_jump_if_false`.
    pub fn visit_jump(&mut self, offset: u32)
        requires
            old(self).pc() + offset <= u32::MAX,
            old(self).next_idx() > 0,
        ensures
            final(self).code() == old(self).code().push(Bytecode::Jump(0)),
            final(self).jumps() == old(self).jumps().push(
                (
                    (old(self).next_idx() - 1) as usize,
                    BytecodeOffset((old(self).pc() + offset) as u32),
                ),
            ),
            final(self).bc() == old(self).bc(),
            final(self).next_idx() == old(self).next_idx(),
            final(self).offsets() == old(self).offsets(),
            final(self).pc() == old(self).pc(),
    {
        let offset = BytecodeOffset(self.pc.to_u32() + offset);
        self.jumps.push((self.next_idx - 1, offset));
        self.emit(Bytecode::Jump(0));
    }

    pub fn visit_jump_const(&mut self, idx: ConstPoolIdx)
        requires
            holds_int(old(self).bc().pool(), idx),
            old(self).pc() + as_distance(old(self).bc().pool()[idx.0 as int]->Int32_0)
                <= u32::MAX,
            old(self).next_idx() > 0,
        ensures
            final(self).code() == old(self).code().push(Bytecode::Jump(0)),
            final(self).jumps() == old(self).jumps().push(
                (
                    (old(self).next_idx() - 1) as usize,
                    BytecodeOffset(
                        (old(self).pc() + as_distance(
                            old(self).bc().pool()[idx.0 as int]->Int32_0,
                        )) as u32,
                    ),
                ),
            ),
            final(self).bc() == old(self).bc(),
            final(self).next_idx() == old(self).next_idx(),
            final(self).offsets() == old(self).offsets(),
            final(self).pc() == old(self).pc(),
    {
        let value = self.bc.const_pool(idx).to_int().unwrap();
        self.visit_jump(distance(value));
    }
}

/// The offset that a forward jump at `offset` leads to; `None` for every
/// other instruction.
pub open spec fn deferred_target(
    pool: Seq<ConstPoolEntry>,
    offset: BytecodeOffset,
    inst: Instruction,
) -> Option<BytecodeOffset> {
    match inst {
        Instruction::JumpIfFalse(_, d) | Instruction::JumpIfTrue(_, d) | Instruction::Jump(d) => Some(
            BytecodeOffset((offset.0 + d) as u32),
        ),
        Instruction::JumpIfFalseConst(_, idx)
        | Instruction::JumpIfTrueConst(_, idx)
        | Instruction::JumpConst(idx) => Some(
            BytecodeOffset((offset.0 + as_distance(pool[idx.0 as int]->Int32_0)) as u32),
        ),
        _ => None,
    }
}

/// What the pass emits for the instruction `inst` at `offset`: a forward
/// jump with the target 0, a jump back with the index that `table` has for
/// its target, a constant with its value from the pool, and every other
/// instruction as it is.
pub open spec fn first_pass(
    pool: Seq<ConstPoolEntry>,
    table: Map<u32, usize>,
    offset: BytecodeOffset,
    inst: Instruction,
) -> Bytecode {
    match inst {
        Instruction::Plain(b) => b,
        Instruction::ConstChar(dest, idx) => Bytecode::ConstChar(dest, pool[idx.0 as int]->Char_0),
        Instruction::ConstInt(dest, idx) => Bytecode::ConstInt(dest, pool[idx.0 as int]->Int32_0),
        Instruction::ConstInt64(dest, idx) => Bytecode::ConstInt64(
            dest,
            pool[idx.0 as int]->Int64_0,
        ),
        Instruction::ConstFloat(dest, idx) => Bytecode::ConstFloat(
            dest,
            pool[idx.0 as int]->Float32_0,
        ),
        Instruction::ConstDouble(dest, idx) => Bytecode::ConstDouble(
            dest,
            pool[idx.0 as int]->Float64_0,
        ),
        Instruction::ConstString(dest, idx) => Bytecode::ConstString(
            dest,
            pool[idx.0 as int]->String_0,
        ),
        Instruction::JumpIfFalse(opnd, _) | Instruction::JumpIfFalseConst(opnd, _) => Bytecode::JumpIfFalse(
            opnd,
            0,
        ),
        Instruction::JumpIfTrue(opnd, _) | Instruction::JumpIfTrueConst(opnd, _) => Bytecode::JumpIfTrue(
            opnd,
            0,
        ),
        Instruction::Jump(_) | Instruction::JumpConst(_) => Bytecode::Jump(0),
        Instruction::JumpLoop(d) => Bytecode::JumpLoop(table[(offset.0 - d) as u32]),
    }
}

/// Whether the pass can take the instruction `inst` at `offset`, with
/// `table` as the offsets visited so far, the instruction's own among them:
/// a constant is in the pool with the kind asked for, the target of a
/// forward jump is a `u32`, and the target of a jump back has been visited.
pub open spec fn acceptable(
    pool: Seq<ConstPoolEntry>,
    table: Map<u32, usize>,
    offset: BytecodeOffset,
    inst: Instruction,
) -> bool {
    match inst {
        Instruction::Plain(_) => true,
        Instruction::ConstChar(_, idx) => idx.0 < pool.len() && pool[idx.0 as int] is Char,
        Instruction::ConstInt(_, idx) => idx.0 < pool.len() && pool[idx.0 as int] is Int32,
        Instruction::ConstInt64(_, idx) => idx.0 < pool.len() && pool[idx.0 as int] is Int64,
        Instruction::ConstFloat(_, idx) => idx.0 < pool.len() && pool[idx.0 as int] is Float32,
        Instruction::ConstDouble(_, idx) => idx.0 < pool.len() && pool[idx.0 as int] is Float64,
        Instruction::ConstString(_, idx) => idx.0 < pool.len() && pool[idx.0 as int] is String,
        Instruction::JumpIfFalse(_, d) | Instruction::JumpIfTrue(_, d) | Instruction::Jump(d) => offset.0
            + d <= u32::MAX,
        Instruction::JumpIfFalseConst(_, idx)
        | Instruction::JumpIfTrueConst(_, idx)
        | Instruction::JumpConst(idx) => holds_int(pool, idx) && offset.0 + as_distance(
            pool[idx.0 as int]->Int32_0,
        ) <= u32::MAX,
        Instruction::JumpLoop(d) => d <= offset.0 && table.contains_key((offset.0 - d) as u32),
    }
}

impl<'a> BytecodeArrayBuilder<'a> {
    /// Takes the instruction `inst`, which stands at `offset`: enters the
    /// offset into the table, and emits the instruction or defers it.
    pub fn visit(&mut self, offset: BytecodeOffset, inst: Instruction)
        requires
            old(self).next_idx() < usize::MAX,
            acceptable(
                old(self).bc().pool(),
                old(self).offsets().insert(offset.0, old(self).next_idx() as usize),
                offset,
                inst,
            ),
        ensures
            final(self).bc() == old(self).bc(),
            final(self).next_idx() == old(self).next_idx() + 1,
            final(self).pc() == offset.0,
            final(self).offsets() == old(self).offsets().insert(
                offset.0,
                old(self).next_idx() as usize,
            ),
            final(self).code() == old(self).code().push(
                first_pass(old(self).bc().pool(), final(self).offsets(), offset, inst),
            ),
            final(self).jumps() == (match deferred_target(old(self).bc().pool(), offset, inst) {
                Some(target) => old(self).jumps().push((old(self).next_idx() as usize, target)),
                None => old(self).jumps(),
            }),
    {
        self.visit_instruction(offset);
        match inst {
            Instruction::Plain(b) => self.emit(b),
            Instruction::ConstChar(dest, idx) => self.visit_const_char(dest, idx),
            Instruction::ConstInt(dest, idx) => self.visit_const_int(dest, idx),
            Instruction::ConstInt64(dest, idx) => self.visit_const_int64(dest, idx),
            Instruction::ConstFloat(dest, idx) => self.visit_const_float(dest, idx),
            Instruction::ConstDouble(dest, idx) => self.visit_const_double(dest, idx),
            Instruction::ConstString(dest, idx) => self.visit_const_string(dest, idx),
            Instruction::JumpIfFalse(opnd, d) => self.visit_jump_if_false(opnd, d),
            Instruction::JumpIfFalseConst(opnd, idx) => self.visit_jump_if_false_const(opnd, idx),
            Instruction::JumpIfTrue(opnd, d) => self.visit_jump_if_true(opnd, d),
            Instruction::JumpIfTrueConst(opnd, idx) => self.visit_jump_if_true_const(opnd, idx),
            Instruction::JumpLoop(d) => self.visit_jump_loop(d),
            Instruction::Jump(d) => self.visit_jump(d),
            Instruction::JumpConst(idx) => self.visit_jump_const(idx),
        }
    }
}

/// The index of the instruction at each offset, once the first `n`
/// instructions of the code are visited.
pub open spec fn offset_table(stream: Seq<(BytecodeOffset, Instruction)>, n: int) -> Map<
    u32,
    usize,
>
    decreases n,
{
    if n <= 0 {
        Map::empty()
    } else {
        offset_table(stream, n - 1).insert(stream[n - 1].0.0, (n - 1) as usize)
    }
}

/// The index of the instruction at each offset, once all the code is
/// visited: the end of the code stands for the number of instructions.
pub open spec fn final_table(bc: &BytecodeFunction, stream: Seq<(BytecodeOffset, Instruction)>) -> Map<
    u32,
    usize,
> {
    offset_table(stream, stream.len() as int).insert(bc.end() as u32, stream.len() as usize)
}

/// The forward jumps among the first `n` instructions, each with its index
/// and the offset it leads to.
pub open spec fn pending(
    pool: Seq<ConstPoolEntry>,
    stream: Seq<(BytecodeOffset, Instruction)>,
    n: int,
) -> Seq<(usize, BytecodeOffset)>
    decreases n,
{
    if n <= 0 {
        Seq::empty()
    } else {
        match deferred_target(pool, stream[n - 1].0, stream[n - 1].1) {
            Some(target) => pending(pool, stream, n - 1).push(((n - 1) as usize, target)),
            None => pending(pool, stream, n - 1),
        }
    }
}

/// The decoded code can be rebuilt: every constant is in the pool with the
/// kind asked for, every jump back leads to an offset visited before it,
/// and every forward jump leads to the offset of an instruction or to the
/// end of the code.
pub open spec fn well_formed(bc: &BytecodeFunction, stream: Seq<(BytecodeOffset, Instruction)>) -> bool {
    &&& bc.wf()
    &&& forall|i: int|
        0 <= i < stream.len() ==> {
            &&& acceptable(
                bc.pool(),
                offset_table(stream, i + 1),
                (#[trigger] stream[i]).0,
                stream[i].1,
            )
            &&& deferred_target(bc.pool(), stream[i].0, stream[i].1) matches Some(target)
                ==> final_table(bc, stream).contains_key(target.0)
        }
}

/// The instruction that the `i`-th instruction of the decoded code becomes.
pub open spec fn resolved(
    bc: &BytecodeFunction,
    stream: Seq<(BytecodeOffset, Instruction)>,
    i: int,
) -> Bytecode {
    let emitted = first_pass(bc.pool(), offset_table(stream, i + 1), stream[i].0, stream[i].1);
    match deferred_target(bc.pool(), stream[i].0, stream[i].1) {
        Some(target) => retarget(emitted, final_table(bc, stream)[target.0]),
        None => emitted,
    }
}

proof fn lemma_pending(
    pool: Seq<ConstPoolEntry>,
    stream: Seq<(BytecodeOffset, Instruction)>,
    n: int,
)
    requires
        0 <= n <= stream.len(),
        stream.len() <= usize::MAX,
    ensures
        forall|k: int|
            0 <= k < pending(pool, stream, n).len() ==> {
                &&& 0 <= (#[trigger] pending(pool, stream, n)[k]).0 < n
                &&& deferred_target(
                    pool,
                    stream[pending(pool, stream, n)[k].0 as int].0,
                    stream[pending(pool, stream, n)[k].0 as int].1,
                ) == Some(pending(pool, stream, n)[k].1)
            },
        forall|i: int|
            0 <= i < n && deferred_target(pool, stream[i].0, stream[i].1) is Some ==> exists|
                k: int,
            |
                0 <= k < pending(pool, stream, n).len() && (#[trigger] pending(
                    pool,
                    stream,
                    n,
                )[k]).0 == i,
        forall|k1: int, k2: int|
            0 <= k1 < k2 < pending(pool, stream, n).len() ==> (#[trigger] pending(
                pool,
                stream,
                n,
            )[k1]).0 < (#[trigger] pending(pool, stream, n)[k2]).0,
    decreases n,
{
    if n > 0 {
        lemma_pending(pool, stream, n - 1);
        let prev = pending(pool, stream, n - 1);
        let cur = pending(pool, stream, n);
        assert forall|i: int|
            0 <= i < n && deferred_target(pool, stream[i].0, stream[i].1) is Some implies exists|
            k: int,
        | 0 <= k < cur.len() && (#[trigger] cur[k]).0 == i by {
            if i < n - 1 {
                let k = choose|k: int| 0 <= k < prev.len() && (#[trigger] prev[k]).0 == i;
                assert(cur[k].0 == i);
            } else {
                assert(cur[cur.len() - 1].0 == i);
            }
        }
    }
}

proof fn lemma_patched_at(
    code: Seq<Bytecode>,
    jumps: Seq<(usize, BytecodeOffset)>,
    table: Map<u32, usize>,
    n: int,
    i: int,
)
    requires
        patchable(code, jumps, table),
        0 <= n <= jumps.len(),
        0 <= i < code.len(),
        forall|k1: int, k2: int|
            0 <= k1 < k2 < jumps.len() ==> (#[trigger] jumps[k1]).0 < (#[trigger] jumps[k2]).0,
    ensures
        (forall|k: int| 0 <= k < n ==> (#[trigger] jumps[k]).0 != i) ==> patched(
            code,
            jumps,
            table,
            n,
        )[i] == code[i],
        forall|k: int|
            0 <= k < n && (#[trigger] jumps[k]).0 == i ==> patched(code, jumps, table, n)[i]
                == retarget(code[i], table[jumps[k].1.0]),
    decreases n,
{
    if n > 0 {
        lemma_patched_at(code, jumps, table, n - 1, i);
        lemma_patched_shape(code, jumps, table, n - 1);
        let last = jumps[n - 1];
        assert(last.0 < code.len());
        if last.0 == i {
            assert forall|k: int| 0 <= k < n - 1 implies (#[trigger] jumps[k]).0 != i by {
                assert(jumps[k].0 < jumps[n - 1].0);
            }
        }
    }
}

/// Rebuilds the instructions of `bc` from its decoded code `stream`, which
/// holds every instruction with its offset, in the order of the code.
pub fn build(bc: &BytecodeFunction, stream: Vec<(BytecodeOffset, Instruction)>) -> (code: Vec<
    Bytecode,
>)
    requires
        well_formed(bc, stream@),
    ensures
        code@.len() == stream@.len(),
        forall|i: int| 0 <= i < stream@.len() ==> #[trigger] code@[i] == resolved(bc, stream@, i),
{
    let mut visitor = BytecodeArrayBuilder::new(bc);
    let ghost all = stream@;
    let count = stream.len();
    for item in it: stream.into_iter()
        invariant
            it.seq() == all,
            all.len() == count,
            well_formed(bc, all),
            visitor.bc() == bc,
            visitor.next_idx() == it.index(),
            visitor.offsets() == offset_table(all, it.index()),
            visitor.code().len() == it.index(),
            forall|i: int|
                0 <= i < it.index() ==> #[trigger] visitor.code()[i] == first_pass(
                    bc.pool(),
                    offset_table(all, i + 1),
                    all[i].0,
                    all[i].1,
                ),
            visitor.jumps() == pending(bc.pool(), all, it.index()),
    {
        let ghost idx = it.index();
        assert(all[idx] == item);
        visitor.visit(item.0, item.1);
    }
    proof {
        let n = all.len() as int;
        let table = final_table(bc, all);
        let jumps = visitor.jumps();
        let emitted = visitor.code();
        lemma_pending(bc.pool(), all, n);
        assert forall|k: int| 0 <= k < jumps.len() implies {
            &&& (#[trigger] jumps[k]).0 < emitted.len()
            &&& is_forward_jump(emitted[jumps[k].0 as int])
            &&& table.contains_key(jumps[k].1.0)
        } by {
            let i = jumps[k].0 as int;
            assert(deferred_target(bc.pool(), all[i].0, all[i].1) == Some(jumps[k].1));
            assert(emitted[i] == first_pass(bc.pool(), offset_table(all, i + 1), all[i].0, all[i].1));
        }
        assert forall|i: int| 0 <= i < n implies #[trigger] patched(
            emitted,
            jumps,
            table,
            jumps.len() as int,
        )[i] == resolved(bc, all, i) by {
            lemma_patched_at(emitted, jumps, table, jumps.len() as int, i);
            assert(emitted[i] == first_pass(bc.pool(), offset_table(all, i + 1), all[i].0, all[i].1));
            if deferred_target(bc.pool(), all[i].0, all[i].1) is Some {
                let k = choose|k: int| 0 <= k < jumps.len() && (#[trigger] jumps[k]).0 == i;
                assert(jumps[k].0 == i);
            } else {
                assert forall|k: int| 0 <= k < jumps.len() implies (#[trigger] jumps[k]).0 != i by {
                    if jumps[k].0 == i {
                        assert(deferred_target(bc.pool(), all[i].0, all[i].1) == Some(jumps[k].1));
                    }
                }
            }
        }
        lemma_patched_shape(emitted, jumps, table, jumps.len() as int);
    }
    visitor.generate()
}

/// The index that a jump leads to; `None` for every other instruction.
pub open spec fn jump_target(inst: Bytecode) -> Option<usize> {
    match inst {
        Bytecode::Jump(idx) => Some(idx),
        Bytecode::JumpIfFalse(_, idx) => Some(idx),
        Bytecode::JumpIfTrue(_, idx) => Some(idx),
        Bytecode::JumpLoop(idx) => Some(idx),
        _ => None,
    }
}

/// A forward jump that leads to the end of the code is resolved to the
/// number of instructions.
pub proof fn lemma_jump_to_end(
    bc: &BytecodeFunction,
    stream: Seq<(BytecodeOffset, Instruction)>,
    i: int,
)
    requires
        bc.wf(),
        stream.len() <= usize::MAX,
        0 <= i < stream.len(),
        deferred_target(bc.pool(), stream[i].0, stream[i].1) == Some(
            BytecodeOffset(bc.end() as u32),
        ),
    ensures
        jump_target(resolved(bc, stream, i)) == Some(stream.len() as usize),
{
}

/// A forward jump that leads to the offset of a later instruction is
/// resolved to the index of that instruction, where no two instructions
/// have one offset and none stands at the end of the code.
pub proof fn lemma_jump_to_instruction(
    bc: &BytecodeFunction,
    stream: Seq<(BytecodeOffset, Instruction)>,
    i: int,
    j: int,
)
    requires
        bc.wf(),
        stream.len() <= usize::MAX,
        0 <= i < stream.len(),
        0 <= j < stream.len(),
        forall|a: int, b: int|
            0 <= a < b < stream.len() ==> (#[trigger] stream[a]).0.0 < (#[trigger] stream[b]).0.0,
        forall|a: int| 0 <= a < stream.len() ==> (#[trigger] stream[a]).0.0 < bc.end(),
        deferred_target(bc.pool(), stream[i].0, stream[i].1) == Some(stream[j].0),
    ensures
        jump_target(resolved(bc, stream, i)) == Some(j as usize),
{
    lemma_offset_table(stream, stream.len() as int, j);
}

/// Where the offsets of the instructions rise, the table has for the
/// offset of each visited instruction the index of that instruction.
proof fn lemma_offset_table(stream: Seq<(BytecodeOffset, Instruction)>, n: int, j: int)
    requires
        0 <= j < n <= stream.len(),
        stream.len() <= usize::MAX,
        forall|a: int, b: int|
            0 <= a < b < stream.len() ==> (#[trigger] stream[a]).0.0 < (#[trigger] stream[b]).0.0,
    ensures
        offset_table(stream, n).contains_key(stream[j].0.0),
        offset_table(stream, n)[stream[j].0.0] == j,
    decreases n,
{
    if j < n - 1 {
        lemma_offset_table(stream, n - 1, j);
        assert(stream[j].0.0 < stream[n - 1].0.0);
    }
}

} // verus!
