use dora::baseline::{Arg, CondCode, ExprStore, InternalArg};
use dora::cpu::x64::{emit_jcc, emit_jmp, emit_modrm, emit_nop, emit_op, emit_rex, emit_sib, emit_u32, emit_u8};
use dora::cpu::arm64::size_flag;
use dora::cpu::{AnyReg, FReg, Reg};
use dora::frame::{ManagedStackSlot, ManagedVar};
use dora::masm::{as_u32, as_u8, Label, MacroAssembler};
use dora::sym::NodeId;
use dora::ty::{BuiltinType, MachineMode};

#[test]
fn new_buffer_is_empty() {
    let buf = MacroAssembler::new();
    assert_eq!(buf.pos(), 0);
    assert_eq!(buf.data(), Vec::<u8>::new());
}

#[test]
fn values_are_emitted_least_significant_byte_first() {
    let mut buf = MacroAssembler::new();
    buf.emit_u8(0x12);
    buf.emit_u32(0x0403_0201);
    buf.emit_u32(0xffff_fffe);
    assert_eq!(buf.pos(), 9);
    assert_eq!(buf.data(), vec![0x12, 1, 2, 3, 4, 0xfe, 0xff, 0xff, 0xff]);
}

#[test]
fn signed_values_as_bits() {
    assert_eq!(as_u32(0), 0);
    assert_eq!(as_u32(1), 1);
    assert_eq!(as_u32(-1), 0xffff_ffff);
    assert_eq!(as_u32(i32::MIN), 0x8000_0000);
    assert_eq!(as_u32(i32::MAX), 0x7fff_ffff);
    assert_eq!(as_u8(0), 0);
    assert_eq!(as_u8(127), 127);
    assert_eq!(as_u8(-1), 0xff);
    assert_eq!(as_u8(-128), 0x80);
    assert_eq!(as_u8(0x1234), 0x34);
    assert_eq!(as_u8(-0x1234), 0xcc);
}

#[test]
fn labels_are_numbered_in_order() {
    let mut buf = MacroAssembler::new();
    assert_eq!(buf.create_label(), Label(0));
    assert_eq!(buf.create_label(), Label(1));
    assert_eq!(Label(1).index(), 1);
}

#[test]
fn backward_jump_knows_its_displacement() {
    let mut buf = MacroAssembler::new();
    let lbl = buf.create_label();
    emit_nop(&mut buf);
    buf.bind_label(lbl);
    emit_nop(&mut buf);
    emit_nop(&mut buf);
    emit_jmp(&mut buf, lbl);
    assert_eq!(buf.data(), vec![0x90, 0x90, 0x90, 0xe9, 0xf9, 0xff, 0xff, 0xff]);
}

#[test]
fn jump_to_the_next_instruction() {
    let mut buf = MacroAssembler::new();
    let lbl = buf.create_label();
    emit_jmp(&mut buf, lbl);
    buf.bind_label(lbl);
    assert_eq!(buf.data(), vec![0xe9, 0, 0, 0, 0]);
}

#[test]
fn several_jumps_to_one_label() {
    let mut buf = MacroAssembler::new();
    let first = buf.create_label();
    let second = buf.create_label();
    emit_jcc(&mut buf, CondCode::Equal, second);
    emit_jmp(&mut buf, first);
    buf.bind_label(first);
    emit_jcc(&mut buf, CondCode::NotEqual, second);
    emit_nop(&mut buf);
    buf.bind_label(second);
    emit_jcc(&mut buf, CondCode::Less, first);
    assert_eq!(
        buf.data(),
        vec![
            0x0f, 0x84, 12, 0, 0, 0, 0xe9, 0, 0, 0, 0, 0x0f, 0x85, 1, 0, 0, 0, 0x90, 0x0f, 0x8c,
            0xf3, 0xff, 0xff, 0xff,
        ]
    );
}

#[test]
fn parts_of_an_instruction() {
    let mut buf = MacroAssembler::new();
    emit_rex(&mut buf, 1, 0, 1, 1);
    emit_rex(&mut buf, 0, 1, 0, 0);
    emit_op(&mut buf, 0xab);
    emit_modrm(&mut buf, 3, 5, 2);
    emit_sib(&mut buf, 2, 7, 1);
    emit_u8(&mut buf, 9);
    emit_u32(&mut buf, 0x100);
    assert_eq!(buf.data(), vec![0x4b, 0x44, 0xab, 0xea, 0xb9, 9, 0, 1, 0, 0]);
}

#[test]
fn numbers_of_registers() {
    let regs = [
        Reg::RAX,
        Reg::RCX,
        Reg::RDX,
        Reg::RBX,
        Reg::RSP,
        Reg::RBP,
        Reg::RSI,
        Reg::RDI,
        Reg::R8,
        Reg::R9,
        Reg::R10,
        Reg::R11,
        Reg::R12,
        Reg::R13,
        Reg::R14,
        Reg::R15,
    ];
    for (i, reg) in regs.iter().enumerate() {
        assert_eq!(reg.number() as usize, i);
        assert_eq!(reg.msb() as usize, i / 8);
        assert_eq!(reg.and7() as usize, i % 8);
        assert_eq!(reg.is_basic_reg(), i < 4);
    }
    assert!(!Reg::RIP.is_basic_reg());
}

#[test]
fn stores_of_expressions() {
    let slot = ManagedStackSlot { var: ManagedVar(3), offset: -16 };
    let stack = ExprStore::Stack(slot);
    assert_eq!(stack.stack_slot(), slot);
    assert_eq!(stack.stack_offset(), -16);
    assert!(!stack.is_none());
    let reg = ExprStore::from(Reg::RCX);
    assert_eq!(reg, ExprStore::Reg(Reg::RCX));
    assert_eq!(reg.reg(), Reg::RCX);
    assert_eq!(reg.any_reg(), AnyReg::Reg(Reg::RCX));
    assert!(reg.any_reg().is_reg());
    let freg: ExprStore = FReg(2).into();
    assert_eq!(freg.freg(), FReg(2));
    assert_eq!(freg.any_reg(), AnyReg::FReg(FReg(2)));
    assert!(freg.any_reg().is_freg());
    assert!(!freg.any_reg().is_reg());
    assert!(ExprStore::Empty.is_none());
    assert!(!reg.is_none());
}

#[test]
fn arguments_of_calls() {
    let args = [
        InternalArg::Array(NodeId(1), BuiltinType::Int),
        InternalArg::Expr(NodeId(2), BuiltinType::Bool),
        InternalArg::Stack(-8, BuiltinType::Long),
        InternalArg::SelfieNew(BuiltinType::Ptr),
        InternalArg::Selfie(BuiltinType::Str),
    ];
    let types: Vec<BuiltinType> = args.iter().map(|a| a.ty()).collect();
    assert_eq!(
        types,
        vec![
            BuiltinType::Int,
            BuiltinType::Bool,
            BuiltinType::Long,
            BuiltinType::Ptr,
            BuiltinType::Str,
        ]
    );
    let new: Vec<bool> = args.iter().map(|a| a.is_selfie_new()).collect();
    assert_eq!(new, vec![false, false, false, true, false]);
    assert!(Arg::Selfie != Arg::SelfieNew);
}

#[test]
fn size_flag_of_modes() {
    assert_eq!(size_flag(MachineMode::Int8), 0);
    assert_eq!(size_flag(MachineMode::Int32), 0);
    assert_eq!(size_flag(MachineMode::Ptr), 1);
}
