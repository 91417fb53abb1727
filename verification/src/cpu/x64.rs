//! The encoding of x86-64 instructions: every function emits one
//! instruction into the buffer, and says which bytes those are.

use vstd::prelude::*;
use crate::baseline::CondCode;
use crate::cpu::Reg;
use crate::masm::{as_u32, as_u8, emitted, emitted_jump, le_bytes, unsigned32, Label, MacroAssembler};
use crate::ty::MachineMode;

verus! {

/// The prefix byte `0100WRXB`.
pub open spec fn rex_byte(w: int, r: int, x: int, b: int) -> u8 {
    (0x40 + 8 * w + 4 * r + 2 * x + b) as u8
}

/// The byte with `mode` in its high two bits, `reg` in the next three and
/// `rm` in the low three.
pub open spec fn modrm_byte(mode: int, reg: int, rm: int) -> u8 {
    (64 * mode + 8 * reg + rm) as u8
}

/// The byte with `scale` in its high two bits, `index` in the next three
/// and `base` in the low three.
pub open spec fn sib_byte(scale: int, index: int, base: int) -> u8 {
    (64 * scale + 8 * index + base) as u8
}

/// The prefix byte where the instruction needs one.
pub open spec fn opt_rex(needed: bool, w: int, r: int, x: int, b: int) -> Seq<u8> {
    if needed {
        seq![rex_byte(w, r, x, b)]
    } else {
        Seq::empty()
    }
}

/// Whether `imm` is a signed byte.
pub open spec fn spec_fits_i8(imm: int) -> bool {
    -128 <= imm <= 127
}

/// The low byte of `value`.
pub open spec fn low8(value: int) -> u8 {
    (value % 256) as u8
}

/// An immediate or displacement: one byte where it is a signed byte, four
/// bytes otherwise.
pub open spec fn imm_bytes(value: int) -> Seq<u8> {
    if spec_fits_i8(value) {
        seq![low8(value)]
    } else {
        le_bytes(unsigned32(value))
    }
}

/// The fourth bit of the number of a register that is the base of an
/// address: zero for `RIP`.
pub open spec fn base_msb(base: Reg) -> int {
    if base == Reg::RIP {
        0
    } else {
        base.spec_msb()
    }
}

/// The two bits that stand for a scale of 1, 2, 4 or 8.
pub open spec fn scale_bits(scale: int) -> int {
    if scale == 8 {
        3
    } else if scale == 4 {
        2
    } else if scale == 2 {
        1
    } else {
        0
    }
}

pub open spec fn valid_scale(scale: int) -> bool {
    scale == 8 || scale == 4 || scale == 2 || scale == 1
}

/// The bytes that address memory at `base + disp`, with `dest` as the
/// register operand. `RSP` and `R12` as the base need a second byte; `RBP`
/// and `R13` always carry a displacement; `RIP` carries four bytes of it.
pub open spec fn spec_membase(base: Reg, disp: int, dest: Reg) -> Seq<u8> {
    if base == Reg::RSP || base == Reg::R12 {
        if disp == 0 {
            seq![modrm_byte(0, dest.spec_and7(), 4), sib_byte(0, 4, 4)]
        } else if spec_fits_i8(disp) {
            seq![modrm_byte(1, dest.spec_and7(), 4), sib_byte(0, 4, 4), low8(disp)]
        } else {
            seq![modrm_byte(2, dest.spec_and7(), 4), sib_byte(0, 4, 4)] + le_bytes(
                unsigned32(disp),
            )
        }
    } else if disp == 0 && base != Reg::RBP && base != Reg::R13 && base != Reg::RIP {
        seq![modrm_byte(0, dest.spec_and7(), base.spec_and7())]
    } else if base == Reg::RIP {
        seq![modrm_byte(0, dest.spec_and7(), 5)] + le_bytes(unsigned32(disp))
    } else if spec_fits_i8(disp) {
        seq![modrm_byte(1, dest.spec_and7(), base.spec_and7()), low8(disp)]
    } else {
        seq![modrm_byte(2, dest.spec_and7(), base.spec_and7())] + le_bytes(unsigned32(disp))
    }
}

/// The bytes that address memory at `base + index * scale + disp`, with
/// `dest` as the register operand.
pub open spec fn spec_membase_index(
    base: Reg,
    index: Reg,
    scale: int,
    disp: int,
    dest: Reg,
) -> Seq<u8> {
    let sib = sib_byte(scale_bits(scale), index.spec_and7(), base.spec_and7());
    if disp == 0 {
        seq![modrm_byte(0, dest.spec_and7(), 4), sib]
    } else if spec_fits_i8(disp) {
        seq![modrm_byte(1, dest.spec_and7(), 4), sib, low8(disp)]
    } else {
        seq![modrm_byte(2, dest.spec_and7(), 4), sib] + le_bytes(unsigned32(disp))
    }
}

/// An instruction with two register operands: the prefix where the
/// operation is on 64 bits or a register has a number above 7, the opcode,
/// and the byte that names `reg` and `rm`.
pub open spec fn spec_reg_reg(x64: int, opcode: u8, reg: Reg, rm: Reg) -> Seq<u8> {
    opt_rex(
        x64 != 0 || reg.spec_msb() != 0 || rm.spec_msb() != 0,
        x64,
        reg.spec_msb(),
        0,
        rm.spec_msb(),
    ) + seq![opcode, modrm_byte(3, reg.spec_and7(), rm.spec_and7())]
}

/// An instruction with one register operand and an extension of the opcode
/// in place of the other.
pub open spec fn spec_ext_reg(needed: bool, x64: int, opcode: u8, ext: int, reg: Reg) -> Seq<u8> {
    opt_rex(needed, x64, 0, 0, reg.spec_msb()) + seq![
        opcode,
        modrm_byte(3, ext, reg.spec_and7()),
    ]
}

/// Whether the mode is one that these instructions exist for.
pub open spec fn integer_mode(mode: MachineMode) -> bool {
    mode is Int8 || mode is Int32 || mode is Ptr
}

/// Whether the instruction works on 64 bits in this mode.
pub open spec fn mode_x64(mode: MachineMode) -> int {
    if mode is Ptr {
        1
    } else {
        0
    }
}

/// The opcode for the mode: `byte_opcode` for bytes, `opcode` otherwise.
pub open spec fn mode_opcode(mode: MachineMode, byte_opcode: u8, opcode: u8) -> u8 {
    if mode is Int8 {
        byte_opcode
    } else {
        opcode
    }
}

pub fn emit_orl_reg_reg(buf: &mut MacroAssembler, src: Reg, dest: Reg)
    requires
        src != Reg::RIP,
        dest != Reg::RIP,
    ensures
        emitted(old(buf), final(buf), spec_reg_reg(0, 0x09, src, dest)),
{
    emit_alu_reg_reg(buf, 0, 0x09, src, dest);
}

pub fn emit_andl_reg_reg(buf: &mut MacroAssembler, src: Reg, dest: Reg)
    requires
        src != Reg::RIP,
        dest != Reg::RIP,
    ensures
        emitted(old(buf), final(buf), spec_reg_reg(0, 0x21, src, dest)),
{
    emit_alu_reg_reg(buf, 0, 0x21, src, dest);
}

pub fn emit_xorl_reg_reg(buf: &mut MacroAssembler, src: Reg, dest: Reg)
    requires
        src != Reg::RIP,
        dest != Reg::RIP,
    ensures
        emitted(old(buf), final(buf), spec_reg_reg(0, 0x31, src, dest)),
{
    emit_alu_reg_reg(buf, 0, 0x31, src, dest);
}

fn emit_alu_reg_reg(buf: &mut MacroAssembler, x64: u8, opcode: u8, src: Reg, dest: Reg)
    requires
        x64 <= 1,
        src != Reg::RIP,
        dest != Reg::RIP,
    ensures
        emitted(old(buf), final(buf), spec_reg_reg(x64 as int, opcode, src, dest)),
{
    if x64 != 0 || src.msb() != 0 || dest.msb() != 0 {
        emit_rex(buf, x64, src.msb(), 0, dest.msb());
    }
    emit_op(buf, opcode);
    emit_modrm(buf, 0b11, src.and7(), dest.and7());
    assert(buf.bytes() =~= old(buf).bytes() + spec_reg_reg(x64 as int, opcode, src, dest));
}

/// Moves a 32-bit immediate into a register.
pub fn emit_movl_imm_reg(buf: &mut MacroAssembler, imm: i32, reg: Reg)
    requires
        reg != Reg::RIP,
    ensures
        emitted(
            old(buf),
            final(buf),
            opt_rex(reg.spec_msb() != 0, 0, 0, 0, 1) + seq![(0xB8 + reg.spec_and7()) as u8]
                + le_bytes(unsigned32(imm as int)),
        ),
{
    if reg.msb() != 0 {
        emit_rex(buf, 0, 0, 0, 1);
    }
    emit_op(buf, 0xB8u8 + reg.and7());
    emit_u32(buf, as_u32(imm));
    assert(buf.bytes() =~= old(buf).bytes() + (opt_rex(reg.spec_msb() != 0, 0, 0, 0, 1) + seq![
        (0xB8 + reg.spec_and7()) as u8,
    ] + le_bytes(unsigned32(imm as int))));
}

/// Moves a 32-bit immediate into a 64-bit register, extending its sign.
pub fn emit_movq_imm_reg(buf: &mut MacroAssembler, imm: i32, reg: Reg)
    requires
        reg != Reg::RIP,
    ensures
        emitted(
            old(buf),
            final(buf),
            seq![rex_byte(1, 0, 0, reg.spec_msb()), 0xc7u8, modrm_byte(3, 0, reg.spec_and7())]
                + le_bytes(unsigned32(imm as int)),
        ),
{
    emit_rex(buf, 1, 0, 0, reg.msb());
    emit_op(buf, 0xc7);
    emit_modrm(buf, 0b11, 0, reg.and7());
    emit_u32(buf, as_u32(imm));
    assert(buf.bytes() =~= old(buf).bytes() + (seq![
        rex_byte(1, 0, 0, reg.spec_msb()),
        0xc7u8,
        modrm_byte(3, 0, reg.spec_and7()),
    ] + le_bytes(unsigned32(imm as int))));
}

/// A load from memory at `src + disp` into `dest`.
pub open spec fn spec_mov_memq_reg(
    rex_prefix: int,
    x64: int,
    opcode: u8,
    src: Reg,
    disp: int,
    dest: Reg,
) -> Seq<u8> {
    opt_rex(
        base_msb(src) != 0 || dest.spec_msb() != 0 || x64 != 0 || rex_prefix != 0,
        x64,
        dest.spec_msb(),
        0,
        base_msb(src),
    ) + seq![opcode] + spec_membase(src, disp, dest)
}

pub fn emit_movb_memq_reg(buf: &mut MacroAssembler, src: Reg, disp: i32, dest: Reg)
    requires
        dest != Reg::RIP,
    ensures
        emitted(
            old(buf),
            final(buf),
            spec_mov_memq_reg(
                if dest.spec_is_basic_reg() {
                    0
                } else {
                    1
                },
                0,
                0x8a,
                src,
                disp as int,
                dest,
            ),
        ),
{
    let rex_prefix: u8 = if dest != Reg::RAX && dest != Reg::RBX && dest != Reg::RCX && dest
        != Reg::RDX {
        1
    } else {
        0
    };
    emit_mov_memq_reg(buf, rex_prefix, 0, 0x8a, src, disp, dest);
}

pub fn emit_movl_memq_reg(buf: &mut MacroAssembler, src: Reg, disp: i32, dest: Reg)
    requires
        dest != Reg::RIP,
    ensures
        emitted(old(buf), final(buf), spec_mov_memq_reg(0, 0, 0x8b, src, disp as int, dest)),
{
    emit_mov_memq_reg(buf, 0, 0, 0x8b, src, disp, dest);
}

#[verifier::rlimit(50)]
pub fn emit_movzbl_memq_reg(buf: &mut MacroAssembler, src: Reg, disp: i32, dest: Reg)
    requires
        dest != Reg::RIP,
    ensures
        emitted(
            old(buf),
            final(buf),
            opt_rex(
                dest.spec_msb() != 0 || base_msb(src) != 0,
                0,
                dest.spec_msb(),
                0,
                base_msb(src),
            ) + seq![0x0Fu8, 0xB6u8] + spec_membase(src, disp as int, dest),
        ),
{
    let src_msb = if src == Reg::RIP {
        0
    } else {
        src.msb()
    };
    if dest.msb() != 0 || src_msb != 0 {
        emit_rex(buf, 0, dest.msb(), 0, src_msb);
    }
    emit_op(buf, 0x0F);
    emit_op(buf, 0xB6);
    emit_membase(buf, src, disp, dest);
    assert(buf.bytes() =~= old(buf).bytes() + (opt_rex(
        dest.spec_msb() != 0 || base_msb(src) != 0,
        0,
        dest.spec_msb(),
        0,
        base_msb(src),
    ) + seq![0x0Fu8, 0xB6u8] + spec_membase(src, disp as int, dest)));
}

pub fn emit_movq_memq_reg(buf: &mut MacroAssembler, src: Reg, disp: i32, dest: Reg)
    requires
        dest != Reg::RIP,
    ensures
        emitted(old(buf), final(buf), spec_mov_memq_reg(0, 1, 0x8b, src, disp as int, dest)),
{
    emit_mov_memq_reg(buf, 0, 1, 0x8b, src, disp, dest);
}

#[verifier::rlimit(50)]
fn emit_mov_memq_reg(
    buf: &mut MacroAssembler,
    rex_prefix: u8,
    x64: u8,
    opcode: u8,
    src: Reg,
    disp: i32,
    dest: Reg,
)
    requires
        x64 <= 1,
        dest != Reg::RIP,
    ensures
        emitted(
            old(buf),
            final(buf),
            spec_mov_memq_reg(rex_prefix as int, x64 as int, opcode, src, disp as int, dest),
        ),
{
    let src_msb = if src == Reg::RIP {
        0
    } else {
        src.msb()
    };
    if src_msb != 0 || dest.msb() != 0 || x64 != 0 || rex_prefix != 0 {
        emit_rex(buf, x64, dest.msb(), 0, src_msb);
    }
    emit_op(buf, opcode);
    emit_membase(buf, src, disp, dest);
    assert(buf.bytes() =~= old(buf).bytes() + spec_mov_memq_reg(
        rex_prefix as int,
        x64 as int,
        opcode,
        src,
        disp as int,
        dest,
    ));
}

/// A store of `src` to memory at `dest + disp`.
pub open spec fn spec_mov_reg_memq(opcode: u8, x64: int, src: Reg, dest: Reg, disp: int) -> Seq<
    u8,
> {
    opt_rex(
        base_msb(dest) != 0 || src.spec_msb() != 0 || x64 != 0,
        x64,
        src.spec_msb(),
        0,
        base_msb(dest),
    ) + seq![opcode] + spec_membase(dest, disp, src)
}

pub fn emit_movq_reg_memq(buf: &mut MacroAssembler, src: Reg, dest: Reg, disp: i32)
    requires
        src != Reg::RIP,
    ensures
        emitted(old(buf), final(buf), spec_mov_reg_memq(0x89, 1, src, dest, disp as int)),
{
    emit_mov_reg_memq(buf, 0x89, 1, src, dest, disp);
}

pub fn emit_movl_reg_memq(buf: &mut MacroAssembler, src: Reg, dest: Reg, disp: i32)
    requires
        src != Reg::RIP,
    ensures
        emitted(old(buf), final(buf), spec_mov_reg_memq(0x89, 0, src, dest, disp as int)),
{
    emit_mov_reg_memq(buf, 0x89, 0, src, dest, disp);
}

/// Stores the low byte of `src`. A register other than `RAX`, `RBX`, `RCX`
/// and `RDX` needs the prefix to name its low byte, and with the prefix the
/// base must be a register.
#[verifier::rlimit(50)]
pub fn emit_movb_reg_memq(buf: &mut MacroAssembler, src: Reg, dest: Reg, disp: i32)
    requires
        src != Reg::RIP,
        dest == Reg::RIP ==> src.spec_is_basic_reg(),
    ensures
        emitted(
            old(buf),
            final(buf),
            opt_rex(
                base_msb(dest) != 0 || src.spec_msb() != 0 || !src.spec_is_basic_reg(),
                0,
                src.spec_msb(),
                0,
                base_msb(dest),
            ) + seq![0x88u8] + spec_membase(dest, disp as int, src),
        ),
{
    let dest_msb = if dest == Reg::RIP {
        0
    } else {
        dest.msb()
    };
    if dest_msb != 0 || src.msb() != 0 || (src != Reg::RAX && src != Reg::RBX && src != Reg::RCX
        && src != Reg::RDX) {
        emit_rex(buf, 0, src.msb(), 0, dest.msb());
    }
    emit_op(buf, 0x88);
    emit_membase(buf, dest, disp, src);
    assert(buf.bytes() =~= old(buf).bytes() + (opt_rex(
        base_msb(dest) != 0 || src.spec_msb() != 0 || !src.spec_is_basic_reg(),
        0,
        src.spec_msb(),
        0,
        base_msb(dest),
    ) + seq![0x88u8] + spec_membase(dest, disp as int, src)));
}

/// A move between the register `dest` and memory at `base + index * scale`.
pub open spec fn spec_mov_ar(
    x64: int,
    opcode: u8,
    base: Reg,
    index: Reg,
    scale: int,
    dest: Reg,
) -> Seq<u8> {
    opt_rex(
        x64 != 0 || dest.spec_msb() != 0 || index.spec_msb() != 0 || base.spec_msb() != 0,
        x64,
        dest.spec_msb(),
        index.spec_msb(),
        base.spec_msb(),
    ) + seq![
        opcode,
        modrm_byte(0, dest.spec_and7(), 4),
        sib_byte(scale_bits(scale), index.spec_and7(), base.spec_and7()),
    ]
}

pub fn emit_movq_ar(buf: &mut MacroAssembler, base: Reg, index: Reg, scale: u8, dest: Reg)
    requires
        valid_scale(scale as int),
        base != Reg::RIP,
        index != Reg::RIP,
        dest != Reg::RIP,
    ensures
        emitted(old(buf), final(buf), spec_mov_ar(1, 0x8b, base, index, scale as int, dest)),
{
    emit_mov_ar(buf, 1, 0x8b, base, index, scale, dest);
}

pub fn emit_movl_ar(buf: &mut MacroAssembler, base: Reg, index: Reg, scale: u8, dest: Reg)
    requires
        valid_scale(scale as int),
        base != Reg::RIP,
        index != Reg::RIP,
        dest != Reg::RIP,
    ensures
        emitted(old(buf), final(buf), spec_mov_ar(0, 0x8b, base, index, scale as int, dest)),
{
    emit_mov_ar(buf, 0, 0x8b, base, index, scale, dest);
}

pub fn emit_movq_ra(buf: &mut MacroAssembler, src: Reg, base: Reg, index: Reg, scale: u8)
    requires
        valid_scale(scale as int),
        base != Reg::RIP,
        index != Reg::RIP,
        src != Reg::RIP,
    ensures
        emitted(old(buf), final(buf), spec_mov_ar(1, 0x89, base, index, scale as int, src)),
{
    emit_mov_ar(buf, 1, 0x89, base, index, scale, src);
}

pub fn emit_movl_ra(buf: &mut MacroAssembler, src: Reg, base: Reg, index: Reg, scale: u8)
    requires
        valid_scale(scale as int),
        base != Reg::RIP,
        index != Reg::RIP,
        src != Reg::RIP,
    ensures
        emitted(old(buf), final(buf), spec_mov_ar(0, 0x89, base, index, scale as int, src)),
{
    emit_mov_ar(buf, 0, 0x89, base, index, scale, src);
}

#[verifier::rlimit(50)]
fn emit_mov_ar(
    buf: &mut MacroAssembler,
    x64: u8,
    opcode: u8,
    base: Reg,
    index: Reg,
    scale: u8,
    dest: Reg,
)
    requires
        x64 <= 1,
        valid_scale(scale as int),
        base != Reg::RIP,
        index != Reg::RIP,
        dest != Reg::RIP,
    ensures
        emitted(
            old(buf),
            final(buf),
            spec_mov_ar(x64 as int, opcode, base, index, scale as int, dest),
        ),
{
    let ghost prefix = opt_rex(
        x64 != 0 || dest.spec_msb() != 0 || index.spec_msb() != 0 || base.spec_msb() != 0,
        x64 as int,
        dest.spec_msb(),
        index.spec_msb(),
        base.spec_msb(),
    );
    if x64 != 0 || dest.msb() != 0 || index.msb() != 0 || base.msb() != 0 {
        emit_rex(buf, x64, dest.msb(), index.msb(), base.msb());
    }
    let ghost start = buf.bytes();
    assert(start =~= old(buf).bytes() + prefix);
    let bits: u8 = match scale {
        8 => 3,
        4 => 2,
        2 => 1,
        _ => 0,
    };
    emit_op(buf, opcode);
    emit_modrm(buf, 0b00, dest.and7(), 0b100);
    emit_sib(buf, bits, index.and7(), base.and7());
    let ghost rest = seq![
        opcode,
        modrm_byte(0, dest.spec_and7(), 4),
        sib_byte(scale_bits(scale as int), index.spec_and7(), base.spec_and7()),
    ];
    assert(buf.bytes() =~= start + rest);
    assert(old(buf).bytes() + prefix + rest =~= old(buf).bytes() + (prefix + rest));
}

#[verifier::rlimit(50)]
fn emit_mov_reg_memq(
    buf: &mut MacroAssembler,
    opcode: u8,
    x64: u8,
    src: Reg,
    dest: Reg,
    disp: i32,
)
    requires
        x64 <= 1,
        src != Reg::RIP,
    ensures
        emitted(
            old(buf),
            final(buf),
            spec_mov_reg_memq(opcode, x64 as int, src, dest, disp as int),
        ),
{
    let dest_msb = if dest == Reg::RIP {
        0
    } else {
        dest.msb()
    };
    if dest_msb != 0 || src.msb() != 0 || x64 != 0 {
        emit_rex(buf, x64, src.msb(), 0, dest_msb);
    }
    emit_op(buf, opcode);
    emit_membase(buf, dest, disp, src);
    assert(buf.bytes() =~= old(buf).bytes() + spec_mov_reg_memq(
        opcode,
        x64 as int,
        src,
        dest,
        disp as int,
    ));
}

#[verifier::rlimit(50)]
fn emit_membase(buf: &mut MacroAssembler, base: Reg, disp: i32, dest: Reg)
    requires
        dest != Reg::RIP,
    ensures
        emitted(old(buf), final(buf), spec_membase(base, disp as int, dest)),
{
    if base == Reg::RSP || base == Reg::R12 {
        if disp == 0 {
            emit_modrm(buf, 0, dest.and7(), Reg::RSP.and7());
            emit_sib(buf, 0, Reg::RSP.and7(), Reg::RSP.and7());
        } else if fits_i8(disp) {
            emit_modrm(buf, 1, dest.and7(), Reg::RSP.and7());
            emit_sib(buf, 0, Reg::RSP.and7(), Reg::RSP.and7());
            emit_u8(buf, as_u8(disp));
        } else {
            emit_modrm(buf, 2, dest.and7(), Reg::RSP.and7());
            emit_sib(buf, 0, Reg::RSP.and7(), Reg::RSP.and7());
            emit_u32(buf, as_u32(disp));
        }
    } else if disp == 0 && base != Reg::RBP && base != Reg::R13 && base != Reg::RIP {
        emit_modrm(buf, 0, dest.and7(), base.and7());
    } else if base == Reg::RIP {
        emit_modrm(buf, 0, dest.and7(), Reg::RBP.and7());
        emit_u32(buf, as_u32(disp));
    } else if fits_i8(disp) {
        emit_modrm(buf, 1, dest.and7(), base.and7());
        emit_u8(buf, as_u8(disp));
    } else {
        emit_modrm(buf, 2, dest.and7(), base.and7());
        emit_u32(buf, as_u32(disp));
    }
    assert(buf.bytes() =~= old(buf).bytes() + spec_membase(base, disp as int, dest));
}

/// An operation of a 64-bit register with an immediate: the short form
/// where the immediate is a signed byte, else the form of `RAX` for that
/// register, else the general form.
pub open spec fn spec_aluq_imm_reg(imm: int, reg: Reg, rax_opcode: u8, modrm_reg: int) -> Seq<u8> {
    seq![rex_byte(1, 0, 0, reg.spec_msb())] + (if spec_fits_i8(imm) {
        seq![0x83u8, modrm_byte(3, modrm_reg, reg.spec_and7()), low8(imm)]
    } else if reg == Reg::RAX {
        seq![rax_opcode] + le_bytes(unsigned32(imm))
    } else {
        seq![0x81u8, modrm_byte(3, modrm_reg, reg.spec_and7())] + le_bytes(unsigned32(imm))
    })
}

pub fn emit_subq_imm_reg(buf: &mut MacroAssembler, imm: i32, reg: Reg)
    requires
        reg != Reg::RIP,
    ensures
        emitted(old(buf), final(buf), spec_aluq_imm_reg(imm as int, reg, 0x2d, 5)),
{
    emit_aluq_imm_reg(buf, imm, reg, 0x2d, 0b101);
}

pub fn emit_addq_imm_reg(buf: &mut MacroAssembler, imm: i32, reg: Reg)
    requires
        reg != Reg::RIP,
    ensures
        emitted(old(buf), final(buf), spec_aluq_imm_reg(imm as int, reg, 0x05, 0)),
{
    emit_aluq_imm_reg(buf, imm, reg, 0x05, 0);
}

fn emit_aluq_imm_reg(buf: &mut MacroAssembler, imm: i32, reg: Reg, rax_opcode: u8, modrm_reg: u8)
    requires
        reg != Reg::RIP,
        modrm_reg < 8,
    ensures
        emitted(
            old(buf),
            final(buf),
            spec_aluq_imm_reg(imm as int, reg, rax_opcode, modrm_reg as int),
        ),
{
    emit_rex(buf, 1, 0, 0, reg.msb());
    if fits_i8(imm) {
        emit_op(buf, 0x83);
        emit_modrm(buf, 0b11, modrm_reg, reg.and7());
        emit_u8(buf, as_u8(imm));
    } else if reg == Reg::RAX {
        emit_op(buf, rax_opcode);
        emit_u32(buf, as_u32(imm));
    } else {
        emit_op(buf, 0x81);
        emit_modrm(buf, 0b11, modrm_reg, reg.and7());
        emit_u32(buf, as_u32(imm));
    }
    assert(buf.bytes() =~= old(buf).bytes() + spec_aluq_imm_reg(
        imm as int,
        reg,
        rax_opcode,
        modrm_reg as int,
    ));
}

pub fn emit_movq_reg_reg(buf: &mut MacroAssembler, src: Reg, dest: Reg)
    requires
        src != Reg::RIP,
        dest != Reg::RIP,
    ensures
        emitted(old(buf), final(buf), spec_reg_reg(1, 0x89, src, dest)),
{
    emit_mov_reg_reg(buf, 1, src, dest);
}

pub fn emit_movl_reg_reg(buf: &mut MacroAssembler, src: Reg, dest: Reg)
    requires
        src != Reg::RIP,
        dest != Reg::RIP,
    ensures
        emitted(old(buf), final(buf), spec_reg_reg(0, 0x89, src, dest)),
{
    emit_mov_reg_reg(buf, 0, src, dest);
}

fn emit_mov_reg_reg(buf: &mut MacroAssembler, x64: u8, src: Reg, dest: Reg)
    requires
        x64 <= 1,
        src != Reg::RIP,
        dest != Reg::RIP,
    ensures
        emitted(old(buf), final(buf), spec_reg_reg(x64 as int, 0x89, src, dest)),
{
    if x64 != 0 || src.msb() != 0 || dest.msb() != 0 {
        emit_rex(buf, x64, src.msb(), 0, dest.msb());
    }
    emit_op(buf, 0x89);
    emit_modrm(buf, 0b11, src.and7(), dest.and7());
    assert(buf.bytes() =~= old(buf).bytes() + spec_reg_reg(x64 as int, 0x89, src, dest));
}

pub fn emit_negl_reg(buf: &mut MacroAssembler, reg: Reg)
    requires
        reg != Reg::RIP,
    ensures
        emitted(old(buf), final(buf), spec_ext_reg(reg.spec_msb() != 0, 0, 0xf7, 3, reg)),
{
    emit_alul_reg(buf, 0xf7, 0b11, 0, reg);
}

pub fn emit_notl_reg(buf: &mut MacroAssembler, reg: Reg)
    requires
        reg != Reg::RIP,
    ensures
        emitted(old(buf), final(buf), spec_ext_reg(reg.spec_msb() != 0, 0, 0xf7, 2, reg)),
{
    emit_alul_reg(buf, 0xf7, 0b10, 0, reg);
}

fn emit_alul_reg(buf: &mut MacroAssembler, opcode: u8, modrm_reg: u8, x64: u8, reg: Reg)
    requires
        x64 <= 1,
        modrm_reg < 8,
        reg != Reg::RIP,
    ensures
        emitted(
            old(buf),
            final(buf),
            spec_ext_reg(
                reg.spec_msb() != 0 || x64 != 0,
                x64 as int,
                opcode,
                modrm_reg as int,
                reg,
            ),
        ),
{
    if reg.msb() != 0 || x64 != 0 {
        emit_rex(buf, x64, 0, 0, reg.msb());
    }
    emit_op(buf, opcode);
    emit_modrm(buf, 0b11, modrm_reg, reg.and7());
    assert(buf.bytes() =~= old(buf).bytes() + spec_ext_reg(
        reg.spec_msb() != 0 || x64 != 0,
        x64 as int,
        opcode,
        modrm_reg as int,
        reg,
    ));
}

/// An operation of the low byte of a register with an immediate: the short
/// form for `RAX`, else the general form, with the prefix where the low
/// byte of the register cannot be named without it.
pub open spec fn spec_alub_imm_reg(
    opcode: u8,
    rax_opcode: u8,
    modrm_reg: int,
    imm: u8,
    dest: Reg,
) -> Seq<u8> {
    if dest == Reg::RAX {
        seq![rax_opcode, imm]
    } else {
        spec_ext_reg(
            dest.spec_msb() != 0 || !dest.spec_is_basic_reg(),
            0,
            opcode,
            modrm_reg,
            dest,
        ) + seq![imm]
    }
}

pub fn emit_xorb_imm_reg(buf: &mut MacroAssembler, imm: u8, dest: Reg)
    requires
        dest != Reg::RIP,
    ensures
        emitted(old(buf), final(buf), spec_alub_imm_reg(0x80, 0x34, 6, imm, dest)),
{
    emit_alub_imm_reg(buf, 0x80, 0x34, 0b110, imm, dest);
}

pub fn emit_andb_imm_reg(buf: &mut MacroAssembler, imm: u8, dest: Reg)
    requires
        dest != Reg::RIP,
    ensures
        emitted(old(buf), final(buf), spec_alub_imm_reg(0x80, 0x24, 4, imm, dest)),
{
    emit_alub_imm_reg(buf, 0x80, 0x24, 0b100, imm, dest);
}

fn emit_alub_imm_reg(
    buf: &mut MacroAssembler,
    opcode: u8,
    rax_opcode: u8,
    modrm_reg: u8,
    imm: u8,
    dest: Reg,
)
    requires
        modrm_reg < 8,
        dest != Reg::RIP,
    ensures
        emitted(
            old(buf),
            final(buf),
            spec_alub_imm_reg(opcode, rax_opcode, modrm_reg as int, imm, dest),
        ),
{
    if dest == Reg::RAX {
        emit_op(buf, rax_opcode);
        emit_u8(buf, imm);
    } else {
        if dest.msb() != 0 || !dest.is_basic_reg() {
            emit_rex(buf, 0, 0, 0, dest.msb());
        }
        emit_op(buf, opcode);
        emit_modrm(buf, 0b11, modrm_reg, dest.and7());
        emit_u8(buf, imm);
    }
    assert(buf.bytes() =~= old(buf).bytes() + spec_alub_imm_reg(
        opcode,
        rax_opcode,
        modrm_reg as int,
        imm,
        dest,
    ));
}

/// Subtracts an immediate from memory at the address in `base`.
pub fn emit_sub_imm_mem(buf: &mut MacroAssembler, mode: MachineMode, base: Reg, imm: u8)
    requires
        integer_mode(mode),
        base != Reg::RIP,
    ensures
        emitted(
            old(buf),
            final(buf),
            opt_rex(mode_x64(mode) != 0 || base.spec_msb() != 0, mode_x64(mode), 0, 0, base.spec_msb())
                + seq![mode_opcode(mode, 0x80, 0x83), modrm_byte(0, 5, base.spec_and7()), imm],
        ),
{
    let (x64, opcode): (u8, u8) = match mode {
        MachineMode::Ptr => (1, 0x83),
        MachineMode::Int32 => (0, 0x83),
        _ => (0, 0x80),
    };
    if x64 != 0 || base.msb() != 0 {
        emit_rex(buf, x64, 0, 0, base.msb());
    }
    emit_op(buf, opcode);
    emit_modrm(buf, 0b00, 0b101, base.and7());
    emit_u8(buf, imm);
    assert(buf.bytes() =~= old(buf).bytes() + (opt_rex(
        mode_x64(mode) != 0 || base.spec_msb() != 0,
        mode_x64(mode),
        0,
        0,
        base.spec_msb(),
    ) + seq![mode_opcode(mode, 0x80, 0x83), modrm_byte(0, 5, base.spec_and7()), imm]));
}

pub fn emit_pushq_reg(buf: &mut MacroAssembler, reg: Reg)
    requires
        reg != Reg::RIP,
    ensures
        emitted(
            old(buf),
            final(buf),
            opt_rex(reg.spec_msb() != 0, 0, 0, 0, 1) + seq![(0x50 + reg.spec_and7()) as u8],
        ),
{
    if reg.msb() != 0 {
        emit_rex(buf, 0, 0, 0, 1);
    }
    emit_op(buf, 0x50 + reg.and7());
    assert(buf.bytes() =~= old(buf).bytes() + (opt_rex(reg.spec_msb() != 0, 0, 0, 0, 1) + seq![
        (0x50 + reg.spec_and7()) as u8,
    ]));
}

pub fn emit_popq_reg(buf: &mut MacroAssembler, reg: Reg)
    requires
        reg != Reg::RIP,
    ensures
        emitted(
            old(buf),
            final(buf),
            opt_rex(reg.spec_msb() != 0, 0, 0, 0, 1) + seq![(0x58 + reg.spec_and7()) as u8],
        ),
{
    if reg.msb() != 0 {
        emit_rex(buf, 0, 0, 0, 1);
    }
    emit_op(buf, 0x58 + reg.and7());
    assert(buf.bytes() =~= old(buf).bytes() + (opt_rex(reg.spec_msb() != 0, 0, 0, 0, 1) + seq![
        (0x58 + reg.spec_and7()) as u8,
    ]));
}

pub fn emit_retq(buf: &mut MacroAssembler)
    ensures
        emitted(old(buf), final(buf), seq![0xC3u8]),
{
    emit_op(buf, 0xC3);
}

pub fn emit_nop(buf: &mut MacroAssembler)
    ensures
        emitted(old(buf), final(buf), seq![0x90u8]),
{
    emit_op(buf, 0x90);
}

pub fn emit_u32(buf: &mut MacroAssembler, val: u32)
    ensures
        emitted(old(buf), final(buf), le_bytes(val)),
{
    buf.emit_u32(val)
}

pub fn emit_u8(buf: &mut MacroAssembler, val: u8)
    ensures
        emitted(old(buf), final(buf), seq![val]),
{
    buf.emit_u8(val);
    assert(buf.bytes() =~= old(buf).bytes() + seq![val]);
}

pub fn emit_op(buf: &mut MacroAssembler, opcode: u8)
    ensures
        emitted(old(buf), final(buf), seq![opcode]),
{
    buf.emit_u8(opcode);
    assert(buf.bytes() =~= old(buf).bytes() + seq![opcode]);
}

pub fn emit_rex(buf: &mut MacroAssembler, w: u8, r: u8, x: u8, b: u8)
    requires
        w <= 1,
        r <= 1,
        x <= 1,
        b <= 1,
    ensures
        emitted(old(buf), final(buf), seq![rex_byte(w as int, r as int, x as int, b as int)]),
{
    let byte: u8 = 0x4 << 4 | w << 3 | r << 2 | x << 1 | b;
    assert(byte == 0x40 + 8 * w + 4 * r + 2 * x + b) by (bit_vector)
        requires
            byte == 0x4u8 << 4 | w << 3 | r << 2 | x << 1 | b,
            w <= 1,
            r <= 1,
            x <= 1,
            b <= 1,
    ;
    buf.emit_u8(byte);
    assert(buf.bytes() =~= old(buf).bytes() + seq![
        rex_byte(w as int, r as int, x as int, b as int),
    ]);
}

pub fn emit_modrm(buf: &mut MacroAssembler, mode: u8, reg: u8, rm: u8)
    requires
        mode < 4,
        reg < 8,
        rm < 8,
    ensures
        emitted(old(buf), final(buf), seq![modrm_byte(mode as int, reg as int, rm as int)]),
{
    let byte: u8 = mode << 6 | reg << 3 | rm;
    assert(byte == 64 * mode + 8 * reg + rm) by (bit_vector)
        requires
            byte == mode << 6 | reg << 3 | rm,
            mode < 4,
            reg < 8,
            rm < 8,
    ;
    buf.emit_u8(byte);
    assert(buf.bytes() =~= old(buf).bytes() + seq![
        modrm_byte(mode as int, reg as int, rm as int),
    ]);
}

pub fn emit_sib(buf: &mut MacroAssembler, scale: u8, index: u8, base: u8)
    requires
        scale < 4,
        index < 8,
        base < 8,
    ensures
        emitted(old(buf), final(buf), seq![sib_byte(scale as int, index as int, base as int)]),
{
    let byte: u8 = scale << 6 | index << 3 | base;
    assert(byte == 64 * scale + 8 * index + base) by (bit_vector)
        requires
            byte == scale << 6 | index << 3 | base,
            scale < 4,
            index < 8,
            base < 8,
    ;
    buf.emit_u8(byte);
    assert(buf.bytes() =~= old(buf).bytes() + seq![
        sib_byte(scale as int, index as int, base as int),
    ]);
}

/// Whether `imm` is a signed byte.
pub fn fits_i8(imm: i32) -> (r: bool)
    ensures
        r == spec_fits_i8(imm as int),
{
    -128 <= imm && imm <= 127
}

/// The second byte of the opcode of a conditional jump.
pub open spec fn jcc_opcode(cond: CondCode) -> u8 {
    match cond {
        CondCode::Zero | CondCode::Equal => 0x84,
        CondCode::NonZero | CondCode::NotEqual => 0x85,
        CondCode::Greater => 0x8F,
        CondCode::GreaterEq => 0x8D,
        CondCode::Less => 0x8C,
        CondCode::LessEq => 0x8E,
        CondCode::UnsignedGreater => 0x87,
        CondCode::UnsignedGreaterEq => 0x83,
        CondCode::UnsignedLess => 0x82,
        CondCode::UnsignedLessEq => 0x86,
    }
}

/// A jump to the label if the condition holds.
pub fn emit_jcc(buf: &mut MacroAssembler, cond: CondCode, lbl: Label)
    requires
        lbl.0 < old(buf).labels().len(),
    ensures
        emitted_jump(old(buf), final(buf), seq![0x0fu8, jcc_opcode(cond)], lbl),
{
    let opcode: u8 = match cond {
        CondCode::Zero | CondCode::Equal => 0x84,
        CondCode::NonZero | CondCode::NotEqual => 0x85,
        CondCode::Greater => 0x8F,
        CondCode::GreaterEq => 0x8D,
        CondCode::Less => 0x8C,
        CondCode::LessEq => 0x8E,
        CondCode::UnsignedGreater => 0x87,
        CondCode::UnsignedGreaterEq => 0x83,
        CondCode::UnsignedLess => 0x82,
        CondCode::UnsignedLessEq => 0x86,
    };
    emit_op(buf, 0x0f);
    emit_op(buf, opcode);
    assert(buf.bytes() =~= old(buf).bytes() + seq![0x0fu8, jcc_opcode(cond)]);
    buf.emit_label(lbl);
}

/// A jump to the label.
pub fn emit_jmp(buf: &mut MacroAssembler, lbl: Label)
    requires
        lbl.0 < old(buf).labels().len(),
    ensures
        emitted_jump(old(buf), final(buf), seq![0xe9u8], lbl),
{
    emit_op(buf, 0xe9);
    buf.emit_label(lbl);
}

pub fn emit_testl_reg_reg(buf: &mut MacroAssembler, op1: Reg, op2: Reg)
    requires
        op1 != Reg::RIP,
        op2 != Reg::RIP,
    ensures
        emitted(old(buf), final(buf), spec_reg_reg(0, 0x85, op1, op2)),
{
    if op1.msb() != 0 || op2.msb() != 0 {
        emit_rex(buf, 0, op1.msb(), 0, op2.msb());
    }
    emit_op(buf, 0x85);
    emit_modrm(buf, 0b11, op1.and7(), op2.and7());
    assert(buf.bytes() =~= old(buf).bytes() + spec_reg_reg(0, 0x85, op1, op2));
}

pub fn emit_testq_reg_reg(buf: &mut MacroAssembler, op1: Reg, op2: Reg)
    requires
        op1 != Reg::RIP,
        op2 != Reg::RIP,
    ensures
        emitted(old(buf), final(buf), spec_reg_reg(1, 0x85, op1, op2)),
{
    emit_rex(buf, 1, op1.msb(), 0, op2.msb());
    emit_op(buf, 0x85);
    emit_modrm(buf, 0b11, op1.and7(), op2.and7());
    assert(buf.bytes() =~= old(buf).bytes() + spec_reg_reg(1, 0x85, op1, op2));
}

pub fn emit_addl_reg_reg(buf: &mut MacroAssembler, src: Reg, dest: Reg)
    requires
        src != Reg::RIP,
        dest != Reg::RIP,
    ensures
        emitted(old(buf), final(buf), spec_reg_reg(0, 0x01, src, dest)),
{
    if src.msb() != 0 || dest.msb() != 0 {
        emit_rex(buf, 0, src.msb(), 0, dest.msb());
    }
    emit_op(buf, 0x01);
    emit_modrm(buf, 0b11, src.and7(), dest.and7());
    assert(buf.bytes() =~= old(buf).bytes() + spec_reg_reg(0, 0x01, src, dest));
}

pub fn emit_addq_reg_reg(buf: &mut MacroAssembler, src: Reg, dest: Reg)
    requires
        src != Reg::RIP,
        dest != Reg::RIP,
    ensures
        emitted(old(buf), final(buf), spec_reg_reg(1, 0x01, src, dest)),
{
    emit_rex(buf, 1, src.msb(), 0, dest.msb());
    emit_op(buf, 0x01);
    emit_modrm(buf, 0b11, src.and7(), dest.and7());
    assert(buf.bytes() =~= old(buf).bytes() + spec_reg_reg(1, 0x01, src, dest));
}

pub fn emit_subl_reg_reg(buf: &mut MacroAssembler, src: Reg, dest: Reg)
    requires
        src != Reg::RIP,
        dest != Reg::RIP,
    ensures
        emitted(old(buf), final(buf), spec_reg_reg(0, 0x29, src, dest)),
{
    if src.msb() != 0 || dest.msb() != 0 {
        emit_rex(buf, 0, src.msb(), 0, dest.msb());
    }
    emit_op(buf, 0x29);
    emit_modrm(buf, 0b11, src.and7(), dest.and7());
    assert(buf.bytes() =~= old(buf).bytes() + spec_reg_reg(0, 0x29, src, dest));
}

/// Multiplies `dest` by `src`. The destination is the register operand of
/// this instruction.
pub fn emit_imull_reg_reg(buf: &mut MacroAssembler, src: Reg, dest: Reg)
    requires
        src != Reg::RIP,
        dest != Reg::RIP,
    ensures
        emitted(
            old(buf),
            final(buf),
            opt_rex(
                src.spec_msb() != 0 || dest.spec_msb() != 0,
                0,
                dest.spec_msb(),
                0,
                src.spec_msb(),
            ) + seq![0x0fu8, 0xafu8, modrm_byte(3, dest.spec_and7(), src.spec_and7())],
        ),
{
    if src.msb() != 0 || dest.msb() != 0 {
        emit_rex(buf, 0, dest.msb(), 0, src.msb());
    }
    emit_op(buf, 0x0f);
    emit_op(buf, 0xaf);
    emit_modrm(buf, 0b11, dest.and7(), src.and7());
    assert(buf.bytes() =~= old(buf).bytes() + (opt_rex(
        src.spec_msb() != 0 || dest.spec_msb() != 0,
        0,
        dest.spec_msb(),
        0,
        src.spec_msb(),
    ) + seq![0x0fu8, 0xafu8, modrm_byte(3, dest.spec_and7(), src.spec_and7())]));
}

pub fn emit_idivl_reg_reg(buf: &mut MacroAssembler, reg: Reg)
    requires
        reg != Reg::RIP,
    ensures
        emitted(old(buf), final(buf), spec_ext_reg(reg.spec_msb() != 0, 0, 0xf7, 7, reg)),
{
    if reg.msb() != 0 {
        emit_rex(buf, 0, 0, 0, reg.msb());
    }
    emit_op(buf, 0xf7);
    emit_modrm(buf, 0b11, 0b111, reg.and7());
    assert(buf.bytes() =~= old(buf).bytes() + spec_ext_reg(reg.spec_msb() != 0, 0, 0xf7, 7, reg));
}

pub fn emit_cmpl_reg_reg(buf: &mut MacroAssembler, src: Reg, dest: Reg)
    requires
        src != Reg::RIP,
        dest != Reg::RIP,
    ensures
        emitted(old(buf), final(buf), spec_reg_reg(0, 0x39, src, dest)),
{
    emit_alu_reg_reg(buf, 0, 0x39, src, dest);
}

pub fn emit_cmpq_reg_reg(buf: &mut MacroAssembler, src: Reg, dest: Reg)
    requires
        src != Reg::RIP,
        dest != Reg::RIP,
    ensures
        emitted(old(buf), final(buf), spec_reg_reg(1, 0x39, src, dest)),
{
    emit_alu_reg_reg(buf, 1, 0x39, src, dest);
}

/// The comparison of memory at `base + disp` with `dest`.
pub open spec fn compare_mem_reg(mode: MachineMode, base: Reg, disp: i32, dest: Reg) -> Seq<u8> {
    opt_rex(
        mode_x64(mode) != 0 || dest.spec_msb() != 0 || base_msb(base) != 0,
        mode_x64(mode),
        dest.spec_msb(),
        0,
        base_msb(base),
    ) + seq![mode_opcode(mode, 0x38, 0x39)] + spec_membase(base, disp as int, dest)
}

/// Compares memory at `base + disp` with `dest`.
#[verifier::rlimit(50)]
pub fn emit_cmp_mem_reg(
    buf: &mut MacroAssembler,
    mode: MachineMode,
    base: Reg,
    disp: i32,
    dest: Reg,
)
    requires
        integer_mode(mode),
        dest != Reg::RIP,
    ensures
        emitted(old(buf), final(buf), compare_mem_reg(mode, base, disp, dest)),
{
    let high = if base == Reg::RIP {
        0
    } else {
        base.msb()
    };
    let (x64, opcode): (u8, u8) = match mode {
        MachineMode::Int8 => (0, 0x38),
        MachineMode::Int32 => (0, 0x39),
        _ => (1, 0x39),
    };
    if x64 != 0 || dest.msb() != 0 || high != 0 {
        emit_rex(buf, x64, dest.msb(), 0, high);
    }
    emit_op(buf, opcode);
    emit_membase(buf, base, disp, dest);
    assert(buf.bytes() =~= old(buf).bytes() + compare_mem_reg(mode, base, disp, dest));
}

/// An instruction on the register `reg` and memory at
/// `base + index * scale + disp`.
pub open spec fn spec_memindex(
    mode: MachineMode,
    byte_opcode: u8,
    opcode: u8,
    base: Reg,
    index: Reg,
    scale: int,
    disp: int,
    reg: Reg,
) -> Seq<u8> {
    opt_rex(
        mode_x64(mode) != 0 || reg.spec_msb() != 0 || index.spec_msb() != 0 || base.spec_msb()
            != 0,
        mode_x64(mode),
        reg.spec_msb(),
        index.spec_msb(),
        base.spec_msb(),
    ) + seq![mode_opcode(mode, byte_opcode, opcode)] + spec_membase_index(
        base,
        index,
        scale,
        disp,
        reg,
    )
}

#[verifier::rlimit(50)]
pub fn emit_mov_memindex_reg(
    buf: &mut MacroAssembler,
    mode: MachineMode,
    base: Reg,
    index: Reg,
    scale: i32,
    disp: i32,
    dest: Reg,
)
    requires
        integer_mode(mode),
        valid_scale(scale as int),
        base != Reg::RIP,
        index != Reg::RIP,
        dest != Reg::RIP,
    ensures
        emitted(
            old(buf),
            final(buf),
            spec_memindex(mode, 0x8a, 0x8b, base, index, scale as int, disp as int, dest),
        ),
{
    let (x64, opcode): (u8, u8) = match mode {
        MachineMode::Int8 => (0, 0x8a),
        MachineMode::Int32 => (0, 0x8b),
        _ => (1, 0x8b),
    };
    if x64 != 0 || dest.msb() != 0 || index.msb() != 0 || base.msb() != 0 {
        emit_rex(buf, x64, dest.msb(), index.msb(), base.msb());
    }
    emit_op(buf, opcode);
    emit_membase_with_index_and_scale(buf, base, index, scale, disp, dest);
    assert(buf.bytes() =~= old(buf).bytes() + spec_memindex(
        mode,
        0x8a,
        0x8b,
        base,
        index,
        scale as int,
        disp as int,
        dest,
    ));
}

#[verifier::rlimit(50)]
pub fn emit_mov_reg_memindex(
    buf: &mut MacroAssembler,
    mode: MachineMode,
    src: Reg,
    base: Reg,
    index: Reg,
    scale: i32,
    disp: i32,
)
    requires
        integer_mode(mode),
        valid_scale(scale as int),
        base != Reg::RIP,
        index != Reg::RIP,
        src != Reg::RIP,
    ensures
        emitted(
            old(buf),
            final(buf),
            spec_memindex(mode, 0x88, 0x89, base, index, scale as int, disp as int, src),
        ),
{
    let (x64, opcode): (u8, u8) = match mode {
        MachineMode::Int8 => (0, 0x88),
        MachineMode::Int32 => (0, 0x89),
        _ => (1, 0x89),
    };
    if x64 != 0 || src.msb() != 0 || index.msb() != 0 || base.msb() != 0 {
        emit_rex(buf, x64, src.msb(), index.msb(), base.msb());
    }
    emit_op(buf, opcode);
    emit_membase_with_index_and_scale(buf, base, index, scale, disp, src);
    assert(buf.bytes() =~= old(buf).bytes() + spec_memindex(
        mode,
        0x88,
        0x89,
        base,
        index,
        scale as int,
        disp as int,
        src,
    ));
}

/// The opcode of a comparison of memory with the immediate `imm`.
pub open spec fn compare_imm_opcode(mode: MachineMode, imm: int) -> u8 {
    if mode is Int8 {
        0x80
    } else if spec_fits_i8(imm) {
        0x83
    } else {
        0x81
    }
}

/// The comparison of memory at `base + disp` with the immediate `imm`.
pub open spec fn compare_mem_imm(mode: MachineMode, base: Reg, disp: i32, imm: i32) -> Seq<u8> {
    opt_rex(mode_x64(mode) != 0 || base_msb(base) != 0, mode_x64(mode), 0, 0, base_msb(base))
        + seq![compare_imm_opcode(mode, imm as int)] + spec_membase(base, disp as int, Reg::RDI)
        + imm_bytes(imm as int)
}

/// Whether `imm` is a signed byte.
pub open spec fn is_signed_byte(imm: i32) -> bool {
    spec_fits_i8(imm as int)
}

/// Compares memory at `base + disp` with an immediate. A byte can only be
/// compared with a signed byte.
#[verifier::rlimit(50)]
pub fn emit_cmp_mem_imm(
    buf: &mut MacroAssembler,
    mode: MachineMode,
    base: Reg,
    disp: i32,
    imm: i32,
)
    requires
        integer_mode(mode),
        mode is Int8 ==> is_signed_byte(imm),
    ensures
        emitted(old(buf), final(buf), compare_mem_imm(mode, base, disp, imm)),
{
    let high = if base == Reg::RIP {
        0
    } else {
        base.msb()
    };
    let opcode: u8 = if fits_i8(imm) {
        0x83
    } else {
        0x81
    };
    let (x64, opcode): (u8, u8) = match mode {
        MachineMode::Int8 => (0, 0x80),
        MachineMode::Int32 => (0, opcode),
        _ => (1, opcode),
    };
    if x64 != 0 || high != 0 {
        emit_rex(buf, x64, 0, 0, high);
    }
    emit_op(buf, opcode);
    emit_membase(buf, base, disp, Reg::RDI);
    if fits_i8(imm) {
        emit_u8(buf, as_u8(imm));
    } else {
        emit_u32(buf, as_u32(imm));
    }
    assert(buf.bytes() =~= old(buf).bytes() + compare_mem_imm(mode, base, disp, imm));
}

/// The comparison of memory at `base + index * scale + disp` with `dest`.
pub open spec fn compare_memindex_reg(
    mode: MachineMode,
    base: Reg,
    index: Reg,
    scale: i32,
    disp: i32,
    dest: Reg,
) -> Seq<u8> {
    spec_memindex(mode, 0x38, 0x39, base, index, scale as int, disp as int, dest)
}

/// Whether `scale` is 1, 2, 4 or 8.
pub open spec fn is_scale(scale: i32) -> bool {
    valid_scale(scale as int)
}

#[verifier::rlimit(50)]
pub fn emit_cmp_memindex_reg(
    buf: &mut MacroAssembler,
    mode: MachineMode,
    base: Reg,
    index: Reg,
    scale: i32,
    disp: i32,
    dest: Reg,
)
    requires
        integer_mode(mode),
        is_scale(scale),
        base != Reg::RIP,
        index != Reg::RIP,
        dest != Reg::RIP,
    ensures
        emitted(
            old(buf),
            final(buf),
            compare_memindex_reg(mode, base, index, scale, disp, dest),
        ),
{
    let (x64, opcode): (u8, u8) = match mode {
        MachineMode::Int8 => (0, 0x38),
        MachineMode::Int32 => (0, 0x39),
        _ => (1, 0x39),
    };
    if x64 != 0 || dest.msb() != 0 || index.msb() != 0 || base.msb() != 0 {
        emit_rex(buf, x64, dest.msb(), index.msb(), base.msb());
    }
    emit_op(buf, opcode);
    emit_membase_with_index_and_scale(buf, base, index, scale, disp, dest);
    assert(buf.bytes() =~= old(buf).bytes() + compare_memindex_reg(
        mode,
        base,
        index,
        scale,
        disp,
        dest,
    ));
}

#[verifier::rlimit(50)]
fn emit_membase_with_index_and_scale(
    buf: &mut MacroAssembler,
    base: Reg,
    index: Reg,
    scale: i32,
    disp: i32,
    dest: Reg,
)
    requires
        valid_scale(scale as int),
        base != Reg::RIP,
        index != Reg::RIP,
        dest != Reg::RIP,
    ensures
        emitted(
            old(buf),
            final(buf),
            spec_membase_index(base, index, scale as int, disp as int, dest),
        ),
{
    let bits: u8 = match scale {
        8 => 3,
        4 => 2,
        2 => 1,
        _ => 0,
    };
    if disp == 0 {
        emit_modrm(buf, 0, dest.and7(), 4);
        emit_sib(buf, bits, index.and7(), base.and7());
    } else if fits_i8(disp) {
        emit_modrm(buf, 1, dest.and7(), 4);
        emit_sib(buf, bits, index.and7(), base.and7());
        emit_u8(buf, as_u8(disp));
    } else {
        emit_modrm(buf, 2, dest.and7(), 4);
        emit_sib(buf, bits, index.and7(), base.and7());
        emit_u32(buf, as_u32(disp));
    }
    assert(buf.bytes() =~= old(buf).bytes() + spec_membase_index(
        base,
        index,
        scale as int,
        disp as int,
        dest,
    ));
}

pub fn emit_cltd(buf: &mut MacroAssembler)
    ensures
        emitted(old(buf), final(buf), seq![0x99u8]),
{
    emit_op(buf, 0x99);
}

/// The second byte of the opcode that sets a byte on a condition.
pub open spec fn setcc_opcode(op: CondCode) -> u8 {
    match op {
        CondCode::Less => 0x9c,
        CondCode::LessEq => 0x9e,
        CondCode::Greater => 0x9f,
        CondCode::GreaterEq => 0x9d,
        CondCode::UnsignedLess => 0x9c,
        CondCode::UnsignedLessEq => 0x9e,
        CondCode::UnsignedGreater => 0x9f,
        CondCode::UnsignedGreaterEq => 0x9d,
        CondCode::Zero | CondCode::Equal => 0x94,
        CondCode::NonZero | CondCode::NotEqual => 0x95,
    }
}

/// Sets the low byte of `reg` to whether the condition holds.
pub fn emit_setb_reg(buf: &mut MacroAssembler, op: CondCode, reg: Reg)
    requires
        reg != Reg::RIP,
    ensures
        emitted(
            old(buf),
            final(buf),
            opt_rex(reg.spec_msb() != 0 || !reg.spec_is_basic_reg(), 0, 0, 0, reg.spec_msb())
                + seq![0x0fu8, setcc_opcode(op), modrm_byte(3, 0, reg.spec_and7())],
        ),
{
    if reg.msb() != 0 || !reg.is_basic_reg() {
        emit_rex(buf, 0, 0, 0, reg.msb());
    }
    let op: u8 = match op {
        CondCode::Less => 0x9c,
        CondCode::LessEq => 0x9e,
        CondCode::Greater => 0x9f,
        CondCode::GreaterEq => 0x9d,
        CondCode::UnsignedLess => 0x9c,
        CondCode::UnsignedLessEq => 0x9e,
        CondCode::UnsignedGreater => 0x9f,
        CondCode::UnsignedGreaterEq => 0x9d,
        CondCode::Zero | CondCode::Equal => 0x94,
        CondCode::NonZero | CondCode::NotEqual => 0x95,
    };
    emit_op(buf, 0x0f);
    emit_op(buf, op);
    emit_modrm(buf, 0b11, 0, reg.and7());
    assert(buf.bytes() =~= old(buf).bytes() + (opt_rex(
        reg.spec_msb() != 0 || !reg.spec_is_basic_reg(),
        0,
        0,
        0,
        reg.spec_msb(),
    ) + seq![0x0fu8, op, modrm_byte(3, 0, reg.spec_and7())]));
}

pub fn emit_movb_reg_reg(buf: &mut MacroAssembler, src: Reg, dest: Reg)
    requires
        src != Reg::RIP,
        dest != Reg::RIP,
    ensures
        emitted(
            old(buf),
            final(buf),
            opt_rex(
                src.spec_msb() != 0 || dest.spec_msb() != 0 || !src.spec_is_basic_reg(),
                0,
                dest.spec_msb(),
                0,
                src.spec_msb(),
            ) + seq![0x88u8, modrm_byte(3, src.spec_and7(), dest.spec_and7())],
        ),
{
    if src.msb() != 0 || dest.msb() != 0 || !src.is_basic_reg() {
        emit_rex(buf, 0, dest.msb(), 0, src.msb());
    }
    emit_op(buf, 0x88);
    emit_modrm(buf, 0b11, src.and7(), dest.and7());
    assert(buf.bytes() =~= old(buf).bytes() + (opt_rex(
        src.spec_msb() != 0 || dest.spec_msb() != 0 || !src.spec_is_basic_reg(),
        0,
        dest.spec_msb(),
        0,
        src.spec_msb(),
    ) + seq![0x88u8, modrm_byte(3, src.spec_and7(), dest.spec_and7())]));
}

pub fn emit_movzbl_reg_reg(buf: &mut MacroAssembler, src: Reg, dest: Reg)
    requires
        src != Reg::RIP,
        dest != Reg::RIP,
    ensures
        emitted(
            old(buf),
            final(buf),
            opt_rex(
                src.spec_msb() != 0 || dest.spec_msb() != 0 || !src.spec_is_basic_reg(),
                0,
                dest.spec_msb(),
                0,
                src.spec_msb(),
            ) + seq![0x0fu8, 0xb6u8, modrm_byte(3, dest.spec_and7(), src.spec_and7())],
        ),
{
    if src.msb() != 0 || dest.msb() != 0 || !src.is_basic_reg() {
        emit_rex(buf, 0, dest.msb(), 0, src.msb());
    }
    emit_op(buf, 0x0f);
    emit_op(buf, 0xb6);
    emit_modrm(buf, 0b11, dest.and7(), src.and7());
    assert(buf.bytes() =~= old(buf).bytes() + (opt_rex(
        src.spec_msb() != 0 || dest.spec_msb() != 0 || !src.spec_is_basic_reg(),
        0,
        dest.spec_msb(),
        0,
        src.spec_msb(),
    ) + seq![0x0fu8, 0xb6u8, modrm_byte(3, dest.spec_and7(), src.spec_and7())]));
}

pub fn emit_cmpb_imm_reg(buf: &mut MacroAssembler, imm: u8, dest: Reg)
    requires
        dest != Reg::RIP,
    ensures
        emitted(old(buf), final(buf), spec_alub_imm_reg(0x80, 0x3c, 7, imm, dest)),
{
    if dest == Reg::RAX {
        emit_op(buf, 0x3c);
        emit_u8(buf, imm);
        assert(buf.bytes() =~= old(buf).bytes() + spec_alub_imm_reg(0x80, 0x3c, 7, imm, dest));
        return ;
    }
    if dest.msb() != 0 || !dest.is_basic_reg() {
        emit_rex(buf, 0, 0, 0, dest.msb());
    }
    emit_op(buf, 0x80);
    emit_modrm(buf, 0b11, 0b111, dest.and7());
    emit_u8(buf, imm);
    assert(buf.bytes() =~= old(buf).bytes() + spec_alub_imm_reg(0x80, 0x3c, 7, imm, dest));
}

pub fn emit_callq_reg(buf: &mut MacroAssembler, dest: Reg)
    requires
        dest != Reg::RIP,
    ensures
        emitted(old(buf), final(buf), spec_ext_reg(dest.spec_msb() != 0, 0, 0xff, 2, dest)),
{
    if dest.msb() != 0 {
        emit_rex(buf, 0, 0, 0, dest.msb());
    }
    emit_op(buf, 0xff);
    emit_modrm(buf, 0b11, 0b10, dest.and7());
    assert(buf.bytes() =~= old(buf).bytes() + spec_ext_reg(
        dest.spec_msb() != 0,
        0,
        0xff,
        2,
        dest,
    ));
}

pub fn emit_shlq_reg(buf: &mut MacroAssembler, imm: u8, dest: Reg)
    requires
        dest != Reg::RIP,
    ensures
        emitted(old(buf), final(buf), spec_ext_reg(true, 1, 0xC1, 4, dest) + seq![imm]),
{
    emit_rex(buf, 1, 0, 0, dest.msb());
    emit_op(buf, 0xC1);
    emit_modrm(buf, 0b11, 0b100, dest.and7());
    emit_u8(buf, imm);
    assert(buf.bytes() =~= old(buf).bytes() + (spec_ext_reg(true, 1, 0xC1, 4, dest) + seq![imm]));
}

pub fn emit_shll_reg(buf: &mut MacroAssembler, imm: u8, dest: Reg)
    requires
        dest != Reg::RIP,
    ensures
        emitted(
            old(buf),
            final(buf),
            spec_ext_reg(dest.spec_msb() != 0, 0, 0xC1, 4, dest) + seq![imm],
        ),
{
    if dest.msb() != 0 {
        emit_rex(buf, 0, 0, 0, dest.msb());
    }
    emit_op(buf, 0xC1);
    emit_modrm(buf, 0b11, 0b100, dest.and7());
    emit_u8(buf, imm);
    assert(buf.bytes() =~= old(buf).bytes() + (spec_ext_reg(dest.spec_msb() != 0, 0, 0xC1, 4, dest)
        + seq![imm]));
}

pub fn emit_shll_reg_cl(buf: &mut MacroAssembler, dest: Reg)
    requires
        dest != Reg::RIP,
    ensures
        emitted(old(buf), final(buf), spec_ext_reg(dest.spec_msb() != 0, 0, 0xD3, 4, dest)),
{
    if dest.msb() != 0 {
        emit_rex(buf, 0, 0, 0, dest.msb());
    }
    emit_op(buf, 0xD3);
    emit_modrm(buf, 0b11, 0b100, dest.and7());
    assert(buf.bytes() =~= old(buf).bytes() + spec_ext_reg(
        dest.spec_msb() != 0,
        0,
        0xD3,
        4,
        dest,
    ));
}

} // verus!
