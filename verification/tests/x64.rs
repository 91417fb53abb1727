use dora::baseline::CondCode;
use dora::cpu::x64::{
    emit_addl_reg_reg,
    emit_addq_imm_reg,
    emit_addq_reg_reg,
    emit_andb_imm_reg,
    emit_andl_reg_reg,
    emit_callq_reg,
    emit_cltd,
    emit_cmp_mem_imm,
    emit_cmp_mem_reg,
    emit_cmp_memindex_reg,
    emit_cmpb_imm_reg,
    emit_cmpl_reg_reg,
    emit_cmpq_reg_reg,
    emit_idivl_reg_reg,
    emit_imull_reg_reg,
    emit_jcc,
    emit_jmp,
    emit_mov_memindex_reg,
    emit_mov_reg_memindex,
    emit_movb_memq_reg,
    emit_movb_reg_memq,
    emit_movb_reg_reg,
    emit_movl_ar,
    emit_movl_imm_reg,
    emit_movl_memq_reg,
    emit_movl_ra,
    emit_movl_reg_memq,
    emit_movl_reg_reg,
    emit_movq_ar,
    emit_movq_imm_reg,
    emit_movq_memq_reg,
    emit_movq_ra,
    emit_movq_reg_memq,
    emit_movq_reg_reg,
    emit_movzbl_memq_reg,
    emit_movzbl_reg_reg,
    emit_negl_reg,
    emit_nop,
    emit_notl_reg,
    emit_orl_reg_reg,
    emit_popq_reg,
    emit_pushq_reg,
    emit_retq,
    emit_setb_reg,
    emit_shll_reg,
    emit_shll_reg_cl,
    emit_shlq_reg,
    emit_sub_imm_mem,
    emit_subl_reg_reg,
    emit_subq_imm_reg,
    emit_testl_reg_reg,
    emit_testq_reg_reg,
    emit_xorb_imm_reg,
    emit_xorl_reg_reg,
    fits_i8,
};
use dora::cpu::Reg::{R10, R11, R12, R13, R14, R15, R8, R9, RAX, RBP, RBX, RCX, RDI, RDX, RIP, RSI, RSP};
use dora::masm::MacroAssembler;
use dora::ty::MachineMode;

fn emit<F: FnOnce(&mut MacroAssembler)>(f: F) -> Vec<u8> {
    let mut buf = MacroAssembler::new();
    f(&mut buf);
    buf.data()
}

#[test]
fn test_fits8() {
    assert!(fits_i8(1));
    assert!(fits_i8(0));
    assert!(fits_i8(-1));
    assert!(fits_i8(127));
    assert!(fits_i8(-128));

    assert!(!fits_i8(128));
    assert!(!fits_i8(-129));
}

#[test]
fn test_shlq_reg() {
    assert_eq!(vec![0x48, 0xC1, 0xE0, 0x02], emit(|buf| emit_shlq_reg(buf, 2, RAX)));
    assert_eq!(vec![0x49, 0xC1, 0xE4, 0x07], emit(|buf| emit_shlq_reg(buf, 7, R12)));
}

#[test]
fn test_shll_reg() {
    assert_eq!(vec![0xC1, 0xE0, 0x02], emit(|buf| emit_shll_reg(buf, 2, RAX)));
    assert_eq!(vec![0x41, 0xC1, 0xE4, 0x07], emit(|buf| emit_shll_reg(buf, 7, R12)));
}

#[test]
fn test_emit_retq() {
    assert_eq!(vec![0xc3], emit(|buf| emit_retq(buf)));
}

#[test]
fn test_emit_popq_reg() {
    assert_eq!(vec![0x58], emit(|buf| emit_popq_reg(buf, RAX)));
    assert_eq!(vec![0x5c], emit(|buf| emit_popq_reg(buf, RSP)));
    assert_eq!(vec![0x41, 0x58], emit(|buf| emit_popq_reg(buf, R8)));
    assert_eq!(vec![0x41, 0x5F], emit(|buf| emit_popq_reg(buf, R15)));
}

#[test]
fn test_emit_pushq_reg() {
    assert_eq!(vec![0x50], emit(|buf| emit_pushq_reg(buf, RAX)));
    assert_eq!(vec![0x54], emit(|buf| emit_pushq_reg(buf, RSP)));
    assert_eq!(vec![0x41, 0x50], emit(|buf| emit_pushq_reg(buf, R8)));
    assert_eq!(vec![0x41, 0x57], emit(|buf| emit_pushq_reg(buf, R15)));
}

#[test]
fn test_emit_movq_reg_reg() {
    assert_eq!(vec![0x4c, 0x89, 0xf8], emit(|buf| emit_movq_reg_reg(buf, R15, RAX)));
    assert_eq!(vec![0x49, 0x89, 0xc7], emit(|buf| emit_movq_reg_reg(buf, RAX, R15)));
}

#[test]
fn test_emit_movl_reg_reg() {
    assert_eq!(vec![0x44, 0x89, 0xf8], emit(|buf| emit_movl_reg_reg(buf, R15, RAX)));
    assert_eq!(vec![0x41, 0x89, 0xc7], emit(|buf| emit_movl_reg_reg(buf, RAX, R15)));
    assert_eq!(vec![0x89, 0xc8], emit(|buf| emit_movl_reg_reg(buf, RCX, RAX)));
}

#[test]
fn test_emit_movl_imm_reg() {
    assert_eq!(vec![0xb8, 2, 0, 0, 0], emit(|buf| emit_movl_imm_reg(buf, 2, RAX)));
    assert_eq!(vec![0x41, 0xbe, 3, 0, 0, 0], emit(|buf| emit_movl_imm_reg(buf, 3, R14)));
}

#[test]
fn test_emit_movq_imm_reg() {
    assert_eq!(vec![0x48, 0xc7, 0xc0, 1, 0, 0, 0], emit(|buf| emit_movq_imm_reg(buf, 1, RAX)));
    assert_eq!(vec![0x49, 0xc7, 0xc7, 0xFF, 0xFF, 0xFF, 0xFF], emit(|buf| emit_movq_imm_reg(buf, -1, R15)));
}

#[test]
fn test_emit_subq_imm_reg() {
    assert_eq!(vec![0x48, 0x83, 0xe8, 0x11], emit(|buf| emit_subq_imm_reg(buf, 0x11, RAX)));
    assert_eq!(vec![0x49, 0x83, 0xef, 0x11], emit(|buf| emit_subq_imm_reg(buf, 0x11, R15)));
    assert_eq!(vec![0x48, 0x2d, 0x11, 0x22, 0, 0], emit(|buf| emit_subq_imm_reg(buf, 0x2211, RAX)));
    assert_eq!(vec![0x48, 0x81, 0xe9, 0x11, 0x22, 0, 0], emit(|buf| emit_subq_imm_reg(buf, 0x2211, RCX)));
    assert_eq!(vec![0x49, 0x81, 0xef, 0x11, 0x22, 0, 0], emit(|buf| emit_subq_imm_reg(buf, 0x2211, R15)));
}

#[test]
fn test_emit_addq_imm_reg() {
    assert_eq!(vec![0x48, 0x83, 0xc0, 0x11], emit(|buf| emit_addq_imm_reg(buf, 0x11, RAX)));
    assert_eq!(vec![0x49, 0x83, 0xc7, 0x11], emit(|buf| emit_addq_imm_reg(buf, 0x11, R15)));
    assert_eq!(vec![0x48, 0x05, 0x11, 0x22, 0, 0], emit(|buf| emit_addq_imm_reg(buf, 0x2211, RAX)));
    assert_eq!(vec![0x48, 0x81, 0xc1, 0x11, 0x22, 0, 0], emit(|buf| emit_addq_imm_reg(buf, 0x2211, RCX)));
    assert_eq!(vec![0x49, 0x81, 0xc7, 0x11, 0x22, 0, 0], emit(|buf| emit_addq_imm_reg(buf, 0x2211, R15)));
}

#[test]
fn test_emit_testl_reg_reg() {
    assert_eq!(vec![0x85, 0xc0], emit(|buf| emit_testl_reg_reg(buf, RAX, RAX)));
    assert_eq!(vec![0x85, 0xc6], emit(|buf| emit_testl_reg_reg(buf, RAX, RSI)));
    assert_eq!(vec![0x41, 0x85, 0xc7], emit(|buf| emit_testl_reg_reg(buf, RAX, R15)));
}

#[test]
fn test_emit_testq_reg_reg() {
    assert_eq!(vec![0x48, 0x85, 0xc0], emit(|buf| emit_testq_reg_reg(buf, RAX, RAX)));
    assert_eq!(vec![0x48, 0x85, 0xc6], emit(|buf| emit_testq_reg_reg(buf, RAX, RSI)));
    assert_eq!(vec![0x49, 0x85, 0xc7], emit(|buf| emit_testq_reg_reg(buf, RAX, R15)));
}

#[test]
fn test_emit_jcc_zero() {
    let mut buf = MacroAssembler::new();
    let lbl = buf.create_label();
    emit_jcc(&mut buf, CondCode::Zero, lbl);
    emit_nop(&mut buf);
    buf.bind_label(lbl);
    assert_eq!(vec![0x0f, 0x84, 1, 0, 0, 0, 0x90], buf.data());
}

#[test]
fn test_emit_jcc_non_zero() {
    let mut buf = MacroAssembler::new();
    let lbl = buf.create_label();
    emit_jcc(&mut buf, CondCode::NonZero, lbl);
    emit_nop(&mut buf);
    buf.bind_label(lbl);
    assert_eq!(vec![0x0f, 0x85, 1, 0, 0, 0, 0x90], buf.data());
}

#[test]
fn test_emit_jcc_greater() {
    let mut buf = MacroAssembler::new();
    let lbl = buf.create_label();
    emit_jcc(&mut buf, CondCode::Greater, lbl);
    emit_nop(&mut buf);
    buf.bind_label(lbl);
    assert_eq!(vec![0x0f, 0x8F, 1, 0, 0, 0, 0x90], buf.data());
}

#[test]
fn test_emit_jcc_greater_or_equal() {
    let mut buf = MacroAssembler::new();
    let lbl = buf.create_label();
    emit_jcc(&mut buf, CondCode::GreaterEq, lbl);
    emit_nop(&mut buf);
    buf.bind_label(lbl);
    assert_eq!(vec![0x0f, 0x8D, 1, 0, 0, 0, 0x90], buf.data());
}

#[test]
fn test_emit_jcc_less() {
    let mut buf = MacroAssembler::new();
    let lbl = buf.create_label();
    emit_jcc(&mut buf, CondCode::Less, lbl);
    emit_nop(&mut buf);
    buf.bind_label(lbl);
    assert_eq!(vec![0x0f, 0x8C, 1, 0, 0, 0, 0x90], buf.data());
}

#[test]
fn test_emit_jcc_less_or_equal() {
    let mut buf = MacroAssembler::new();
    let lbl = buf.create_label();
    emit_jcc(&mut buf, CondCode::LessEq, lbl);
    emit_nop(&mut buf);
    buf.bind_label(lbl);
    assert_eq!(vec![0x0f, 0x8E, 1, 0, 0, 0, 0x90], buf.data());
}

#[test]
fn test_emit_jcc_unsigned_greater() {
    let mut buf = MacroAssembler::new();
    let lbl = buf.create_label();
    emit_jcc(&mut buf, CondCode::UnsignedGreater, lbl);
    emit_nop(&mut buf);
    buf.bind_label(lbl);
    assert_eq!(vec![0x0f, 0x87, 1, 0, 0, 0, 0x90], buf.data());
}

#[test]
fn test_emit_jcc_unsigned_greater_or_equal() {
    let mut buf = MacroAssembler::new();
    let lbl = buf.create_label();
    emit_jcc(&mut buf, CondCode::UnsignedGreaterEq, lbl);
    emit_nop(&mut buf);
    buf.bind_label(lbl);
    assert_eq!(vec![0x0f, 0x83, 1, 0, 0, 0, 0x90], buf.data());
}

#[test]
fn test_emit_jcc_unsigned_less() {
    let mut buf = MacroAssembler::new();
    let lbl = buf.create_label();
    emit_jcc(&mut buf, CondCode::UnsignedLess, lbl);
    emit_nop(&mut buf);
    buf.bind_label(lbl);
    assert_eq!(vec![0x0f, 0x82, 1, 0, 0, 0, 0x90], buf.data());
}

#[test]
fn test_emit_jcc_unsigned_less_or_equal() {
    let mut buf = MacroAssembler::new();
    let lbl = buf.create_label();
    emit_jcc(&mut buf, CondCode::UnsignedLessEq, lbl);
    emit_nop(&mut buf);
    buf.bind_label(lbl);
    assert_eq!(vec![0x0f, 0x86, 1, 0, 0, 0, 0x90], buf.data());
}

#[test]
fn test_emit_jmp() {
    let mut buf = MacroAssembler::new();
    let lbl = buf.create_label();
    emit_jmp(&mut buf, lbl);
    emit_nop(&mut buf);
    buf.bind_label(lbl);
    assert_eq!(vec![0xe9, 1, 0, 0, 0, 0x90], buf.data());
}

#[test]
fn test_emit_movl_memq_reg() {
    assert_eq!(vec![0x8b, 0x44, 0x24, 1], emit(|buf| emit_movl_memq_reg(buf, RSP, 1, RAX)));
    assert_eq!(vec![0x8b, 0x04, 0x24], emit(|buf| emit_movl_memq_reg(buf, RSP, 0, RAX)));

    assert_eq!(vec![0x44, 0x8b, 0x45, 0], emit(|buf| emit_movl_memq_reg(buf, RBP, 0, R8)));

    assert_eq!(vec![0x8b, 0x05, 0, 0, 0, 0], emit(|buf| emit_movl_memq_reg(buf, RIP, 0, RAX)));
    assert_eq!(vec![0x8b, 0x0d, 0, 0, 0, 0], emit(|buf| emit_movl_memq_reg(buf, RIP, 0, RCX)));
}

#[test]
fn test_emit_movzbl_memq_reg() {
    assert_eq!(vec![0x0f, 0xb6, 0x45, 0], emit(|buf| emit_movzbl_memq_reg(buf, RBP, 0, RAX)));
    assert_eq!(vec![0x0F, 0xB6, 0x71, 0x11], emit(|buf| emit_movzbl_memq_reg(buf, RCX, 0x11, RSI)));

    assert_eq!(vec![0x0F, 0xB6, 0x3D, 0x00, 0x00, 0x00, 0x00], emit(|buf| emit_movzbl_memq_reg(buf, RIP, 0, RDI)));

    assert_eq!(vec![0x44, 0x0F, 0xB6, 0x94, 0x24, 0x22, 0x11, 0, 0], emit(|buf| emit_movzbl_memq_reg(buf, RSP, 0x1122, R10)));
}

#[test]
fn test_emit_movq_memq_reg() {
    assert_eq!(vec![0x48, 0x8b, 0x44, 0x24, 1], emit(|buf| emit_movq_memq_reg(buf, RSP, 1, RAX)));

    assert_eq!(vec![0x48, 0x8b, 0x05, 0xff, 0xff, 0xff, 0xff], emit(|buf| emit_movq_memq_reg(buf, RIP, -1, RAX)));
    assert_eq!(vec![0x48, 0x8b, 0x05, 0, 0, 0, 0], emit(|buf| emit_movq_memq_reg(buf, RIP, 0, RAX)));
    assert_eq!(vec![0x48, 0x8b, 0x05, 1, 0, 0, 0], emit(|buf| emit_movq_memq_reg(buf, RIP, 1, RAX)));
    assert_eq!(vec![0x48, 0x8b, 0], emit(|buf| emit_movq_memq_reg(buf, RAX, 0, RAX)));
}

#[test]
fn test_emit_movb_memq_reg() {
    assert_eq!(vec![0x8a, 0x45, 1], emit(|buf| emit_movb_memq_reg(buf, RBP, 1, RAX)));
    assert_eq!(vec![0x8a, 0x44, 0x24, 1], emit(|buf| emit_movb_memq_reg(buf, RSP, 1, RAX)));
    assert_eq!(vec![0x8a, 0x44, 0x24, 0xff], emit(|buf| emit_movb_memq_reg(buf, RSP, -1, RAX)));
    assert_eq!(vec![0x8a, 0x5d, 1], emit(|buf| emit_movb_memq_reg(buf, RBP, 1, RBX)));
    assert_eq!(vec![0x8a, 0x4d, 1], emit(|buf| emit_movb_memq_reg(buf, RBP, 1, RCX)));
    assert_eq!(vec![0x8a, 0x55, 1], emit(|buf| emit_movb_memq_reg(buf, RBP, 1, RDX)));
    assert_eq!(vec![0x44, 0x8a, 0x7d, 1], emit(|buf| emit_movb_memq_reg(buf, RBP, 1, R15)));
    assert_eq!(vec![0x40, 0x8a, 0x75, 1], emit(|buf| emit_movb_memq_reg(buf, RBP, 1, RSI)));
    assert_eq!(vec![0x40, 0x8a, 0x7d, 1], emit(|buf| emit_movb_memq_reg(buf, RBP, 1, RDI)));
}

#[test]
fn test_emit_movl_reg_memq() {
    assert_eq!(vec![0x89, 0x0d, 0, 0, 0, 0], emit(|buf| emit_movl_reg_memq(buf, RCX, RIP, 0)));
    assert_eq!(vec![0x89, 0x48, 3], emit(|buf| emit_movl_reg_memq(buf, RCX, RAX, 3)));
}

#[test]
fn test_emit_movq_reg_memq() {
    assert_eq!(vec![0x48, 0x89, 0x0d, 0, 0, 0, 0], emit(|buf| emit_movq_reg_memq(buf, RCX, RIP, 0)));
    assert_eq!(vec![0x48, 0x89, 0x48, 3], emit(|buf| emit_movq_reg_memq(buf, RCX, RAX, 3)));
    assert_eq!(vec![0x4c, 0x89, 0x42, 0x08], emit(|buf| emit_movq_reg_memq(buf, R8, RDX, 8)));
    assert_eq!(vec![0x4d, 0x89, 0x42, 0x08], emit(|buf| emit_movq_reg_memq(buf, R8, R10, 8)));
    assert_eq!(vec![0x49, 0x89, 0x42, 0x08], emit(|buf| emit_movq_reg_memq(buf, RAX, R10, 8)));
    assert_eq!(vec![0x48, 0x89, 0x42, 0x08], emit(|buf| emit_movq_reg_memq(buf, RAX, RDX, 8)));
}

#[test]
fn test_emit_movb_reg_memq() {
    assert_eq!(vec![0x88, 0x0d, 0, 0, 0, 0], emit(|buf| emit_movb_reg_memq(buf, RCX, RIP, 0)));
    assert_eq!(vec![0x88, 0x48, 3], emit(|buf| emit_movb_reg_memq(buf, RCX, RAX, 3)));
    assert_eq!(vec![0x40, 0x88, 0x75, 0xFF], emit(|buf| emit_movb_reg_memq(buf, RSI, RBP, -1)));

    assert_eq!(vec![0x88, 0x45, 0x01], emit(|buf| emit_movb_reg_memq(buf, RAX, RBP, 1)));
    assert_eq!(vec![0x88, 0x44, 0x24, 0x01], emit(|buf| emit_movb_reg_memq(buf, RAX, RSP, 1)));
    assert_eq!(vec![0x88, 0x5d, 0x01], emit(|buf| emit_movb_reg_memq(buf, RBX, RBP, 1)));
    assert_eq!(vec![0x88, 0x4d, 0x01], emit(|buf| emit_movb_reg_memq(buf, RCX, RBP, 1)));
    assert_eq!(vec![0x88, 0x55, 0x01], emit(|buf| emit_movb_reg_memq(buf, RDX, RBP, 1)));

    assert_eq!(vec![0x44, 0x88, 0x42, 0x08], emit(|buf| emit_movb_reg_memq(buf, R8, RDX, 8)));
    assert_eq!(vec![0x45, 0x88, 0x42, 0x08], emit(|buf| emit_movb_reg_memq(buf, R8, R10, 8)));
    assert_eq!(vec![0x41, 0x88, 0x42, 0x08], emit(|buf| emit_movb_reg_memq(buf, RAX, R10, 8)));
    assert_eq!(vec![0x88, 0x42, 0x08], emit(|buf| emit_movb_reg_memq(buf, RAX, RDX, 8)));
}

#[test]
fn test_negl_reg() {
    assert_eq!(vec![0xf7, 0xd8], emit(|buf| emit_negl_reg(buf, RAX)));
    assert_eq!(vec![0x41, 0xf7, 0xdf], emit(|buf| emit_negl_reg(buf, R15)));
}

#[test]
fn test_notl_reg() {
    assert_eq!(vec![0xf7, 0xd0], emit(|buf| emit_notl_reg(buf, RAX)));
    assert_eq!(vec![0x41, 0xf7, 0xd7], emit(|buf| emit_notl_reg(buf, R15)));
}

#[test]
fn test_xorb_imm_reg() {
    assert_eq!(vec![0x34, 1], emit(|buf| emit_xorb_imm_reg(buf, 1, RAX)));
    assert_eq!(vec![0x80, 0xf3, 1], emit(|buf| emit_xorb_imm_reg(buf, 1, RBX)));
    assert_eq!(vec![0x80, 0xf1, 1], emit(|buf| emit_xorb_imm_reg(buf, 1, RCX)));
    assert_eq!(vec![0x80, 0xf2, 1], emit(|buf| emit_xorb_imm_reg(buf, 1, RDX)));
    assert_eq!(vec![0x40, 0x80, 0xf6, 1], emit(|buf| emit_xorb_imm_reg(buf, 1, RSI)));
    assert_eq!(vec![0x40, 0x80, 0xf7, 1], emit(|buf| emit_xorb_imm_reg(buf, 1, RDI)));

    assert_eq!(vec![0x41, 0x80, 0xf0, 3], emit(|buf| emit_xorb_imm_reg(buf, 3, R8)));
    assert_eq!(vec![0x41, 0x80, 0xf7, 4], emit(|buf| emit_xorb_imm_reg(buf, 4, R15)));
}

#[test]
fn test_andb_imm_reg() {
    assert_eq!(vec![0x24, 1], emit(|buf| emit_andb_imm_reg(buf, 1, RAX)));
    assert_eq!(vec![0x80, 0xe1, 2], emit(|buf| emit_andb_imm_reg(buf, 2, RCX)));
    assert_eq!(vec![0x41, 0x80, 0xe0, 3], emit(|buf| emit_andb_imm_reg(buf, 3, R8)));
    assert_eq!(vec![0x41, 0x80, 0xe7, 4], emit(|buf| emit_andb_imm_reg(buf, 4, R15)));
}

#[test]
fn test_addl_reg_reg() {
    assert_eq!(vec![0x01, 0xd8], emit(|buf| emit_addl_reg_reg(buf, RBX, RAX)));
    assert_eq!(vec![0x44, 0x01, 0xf9], emit(|buf| emit_addl_reg_reg(buf, R15, RCX)));
}

#[test]
fn test_addq_reg_reg() {
    assert_eq!(vec![0x48, 0x01, 0xD8], emit(|buf| emit_addq_reg_reg(buf, RBX, RAX)));
    assert_eq!(vec![0x4C, 0x01, 0xE0], emit(|buf| emit_addq_reg_reg(buf, R12, RAX)));
    assert_eq!(vec![0x49, 0x01, 0xC4], emit(|buf| emit_addq_reg_reg(buf, RAX, R12)));
    assert_eq!(vec![0x49, 0x01, 0xE7], emit(|buf| emit_addq_reg_reg(buf, RSP, R15)));
}

#[test]
fn test_subl_reg_reg() {
    assert_eq!(vec![0x29, 0xd8], emit(|buf| emit_subl_reg_reg(buf, RBX, RAX)));
    assert_eq!(vec![0x44, 0x29, 0xf9], emit(|buf| emit_subl_reg_reg(buf, R15, RCX)));
}

#[test]
fn test_imull_reg_reg() {
    assert_eq!(vec![0x0f, 0xaf, 0xc3], emit(|buf| emit_imull_reg_reg(buf, RBX, RAX)));
    assert_eq!(vec![0x41, 0x0f, 0xaf, 0xcf], emit(|buf| emit_imull_reg_reg(buf, R15, RCX)));
}

#[test]
fn test_idivl_reg_reg() {
    assert_eq!(vec![0xf7, 0xf8], emit(|buf| emit_idivl_reg_reg(buf, RAX)));
    assert_eq!(vec![0x41, 0xf7, 0xff], emit(|buf| emit_idivl_reg_reg(buf, R15)));
}

#[test]
fn test_cltd() {
    assert_eq!(vec![0x99], emit(|buf| emit_cltd(buf)));
}

#[test]
fn test_orl_reg_reg() {
    assert_eq!(vec![0x44, 0x09, 0xf8], emit(|buf| emit_orl_reg_reg(buf, R15, RAX)));
    assert_eq!(vec![0x09, 0xc8], emit(|buf| emit_orl_reg_reg(buf, RCX, RAX)));
    assert_eq!(vec![0x41, 0x09, 0xc7], emit(|buf| emit_orl_reg_reg(buf, RAX, R15)));
}

#[test]
fn test_andl_reg_reg() {
    assert_eq!(vec![0x44, 0x21, 0xf8], emit(|buf| emit_andl_reg_reg(buf, R15, RAX)));
    assert_eq!(vec![0x21, 0xc8], emit(|buf| emit_andl_reg_reg(buf, RCX, RAX)));
    assert_eq!(vec![0x41, 0x21, 0xc7], emit(|buf| emit_andl_reg_reg(buf, RAX, R15)));
}

#[test]
fn test_xorl_reg_reg() {
    assert_eq!(vec![0x44, 0x31, 0xf8], emit(|buf| emit_xorl_reg_reg(buf, R15, RAX)));
    assert_eq!(vec![0x31, 0xc8], emit(|buf| emit_xorl_reg_reg(buf, RCX, RAX)));
    assert_eq!(vec![0x41, 0x31, 0xc7], emit(|buf| emit_xorl_reg_reg(buf, RAX, R15)));
}

#[test]
fn test_cmpl_reg_reg() {
    assert_eq!(vec![0x44, 0x39, 0xf8], emit(|buf| emit_cmpl_reg_reg(buf, R15, RAX)));
    assert_eq!(vec![0x41, 0x39, 0xdf], emit(|buf| emit_cmpl_reg_reg(buf, RBX, R15)));
    assert_eq!(vec![0x39, 0xd8], emit(|buf| emit_cmpl_reg_reg(buf, RBX, RAX)));
}

#[test]
fn test_cmpq_reg_reg() {
    assert_eq!(vec![0x4C, 0x39, 0xf8], emit(|buf| emit_cmpq_reg_reg(buf, R15, RAX)));
    assert_eq!(vec![0x49, 0x39, 0xdf], emit(|buf| emit_cmpq_reg_reg(buf, RBX, R15)));
    assert_eq!(vec![0x48, 0x39, 0xd8], emit(|buf| emit_cmpq_reg_reg(buf, RBX, RAX)));
}

#[test]
fn test_setb_reg() {
    assert_eq!(vec![0x0f, 0x94, 0xc0], emit(|buf| emit_setb_reg(buf, CondCode::Equal, RAX)));
    assert_eq!(vec![0x41, 0x0f, 0x95, 0xc7], emit(|buf| emit_setb_reg(buf, CondCode::NotEqual, R15)));
    assert_eq!(vec![0x0f, 0x9d, 0xc1], emit(|buf| emit_setb_reg(buf, CondCode::GreaterEq, RCX)));
    assert_eq!(vec![0x0f, 0x9f, 0xc2], emit(|buf| emit_setb_reg(buf, CondCode::Greater, RDX)));
    assert_eq!(vec![0x40, 0x0f, 0x9e, 0xc6], emit(|buf| emit_setb_reg(buf, CondCode::LessEq, RSI)));
    assert_eq!(vec![0x40, 0x0f, 0x9c, 0xc7], emit(|buf| emit_setb_reg(buf, CondCode::Less, RDI)));
}

#[test]
fn test_movb_reg_reg() {
    assert_eq!(vec![0x88, 0xd8], emit(|buf| emit_movb_reg_reg(buf, RBX, RAX)));
    assert_eq!(vec![0x88, 0xd1], emit(|buf| emit_movb_reg_reg(buf, RDX, RCX)));
    assert_eq!(vec![0x45, 0x88, 0xd1], emit(|buf| emit_movb_reg_reg(buf, R10, R9)));
    assert_eq!(vec![0x40, 0x88, 0xfe], emit(|buf| emit_movb_reg_reg(buf, RDI, RSI)));
    assert_eq!(vec![0x45, 0x88, 0xf7], emit(|buf| emit_movb_reg_reg(buf, R14, R15)));
}

#[test]
fn test_movzbl_reg_reg() {
    assert_eq!(vec![0x0f, 0xb6, 0xc0], emit(|buf| emit_movzbl_reg_reg(buf, RAX, RAX)));
    assert_eq!(vec![0x41, 0x0f, 0xb6, 0xc7], emit(|buf| emit_movzbl_reg_reg(buf, R15, RAX)));
    assert_eq!(vec![0x44, 0x0f, 0xb6, 0xfb], emit(|buf| emit_movzbl_reg_reg(buf, RBX, R15)));
    assert_eq!(vec![0x40, 0x0f, 0xb6, 0xce], emit(|buf| emit_movzbl_reg_reg(buf, RSI, RCX)));
}

#[test]
fn test_emit_cmpb_imm_reg() {
    assert_eq!(vec![0x3c, 0], emit(|buf| emit_cmpb_imm_reg(buf, 0, RAX)));
    assert_eq!(vec![0x80, 0xf9, 0], emit(|buf| emit_cmpb_imm_reg(buf, 0, RCX)));
    assert_eq!(vec![0x41, 0x80, 0xff, 0], emit(|buf| emit_cmpb_imm_reg(buf, 0, R15)));
    assert_eq!(vec![0x40, 0x80, 0xfe, 0], emit(|buf| emit_cmpb_imm_reg(buf, 0, RSI)));
}

#[test]
fn test_callq_reg() {
    assert_eq!(vec![0xff, 0xd0], emit(|buf| emit_callq_reg(buf, RAX)));
    assert_eq!(vec![0x41, 0xff, 0xd7], emit(|buf| emit_callq_reg(buf, R15)));
}

#[test]
fn test_movq_ar() {
    assert_eq!(vec![0x48, 0x8b, 0x0C, 0xD8], emit(|buf| emit_movq_ar(buf, RAX, RBX, 8, RCX)));
    assert_eq!(vec![0x48, 0x8b, 0x1C, 0x81], emit(|buf| emit_movq_ar(buf, RCX, RAX, 4, RBX)));
    assert_eq!(vec![0x48, 0x8b, 0x04, 0x4B], emit(|buf| emit_movq_ar(buf, RBX, RCX, 2, RAX)));
    assert_eq!(vec![0x4D, 0x8b, 0x3C, 0x03], emit(|buf| emit_movq_ar(buf, R11, RAX, 1, R15)));
}

#[test]
fn test_movl_ar() {
    assert_eq!(vec![0x8b, 0x0c, 0xd8], emit(|buf| emit_movl_ar(buf, RAX, RBX, 8, RCX)));
    assert_eq!(vec![0x8b, 0x1C, 0x81], emit(|buf| emit_movl_ar(buf, RCX, RAX, 4, RBX)));
    assert_eq!(vec![0x8b, 0x04, 0x4B], emit(|buf| emit_movl_ar(buf, RBX, RCX, 2, RAX)));
    assert_eq!(vec![0x45, 0x8b, 0x3C, 0x03], emit(|buf| emit_movl_ar(buf, R11, RAX, 1, R15)));
}

#[test]
fn test_movq_ra() {
    assert_eq!(vec![0x48, 0x89, 0x0C, 0xD8], emit(|buf| emit_movq_ra(buf, RCX, RAX, RBX, 8)));
    assert_eq!(vec![0x48, 0x89, 0x1C, 0x81], emit(|buf| emit_movq_ra(buf, RBX, RCX, RAX, 4)));
    assert_eq!(vec![0x48, 0x89, 0x04, 0x4B], emit(|buf| emit_movq_ra(buf, RAX, RBX, RCX, 2)));
    assert_eq!(vec![0x4D, 0x89, 0x3C, 0x03], emit(|buf| emit_movq_ra(buf, R15, R11, RAX, 1)));
}

#[test]
fn test_movl_ra() {
    assert_eq!(vec![0x89, 0x0c, 0xd8], emit(|buf| emit_movl_ra(buf, RCX, RAX, RBX, 8)));
    assert_eq!(vec![0x89, 0x1C, 0x81], emit(|buf| emit_movl_ra(buf, RBX, RCX, RAX, 4)));
    assert_eq!(vec![0x89, 0x04, 0x4B], emit(|buf| emit_movl_ra(buf, RAX, RBX, RCX, 2)));
    assert_eq!(vec![0x45, 0x89, 0x3C, 0x03], emit(|buf| emit_movl_ra(buf, R15, R11, RAX, 1)));
}

#[test]
fn test_shll_reg_reg() {
    assert_eq!(vec![0xD3, 0xE0], emit(|buf| emit_shll_reg_cl(buf, RAX)));
    assert_eq!(vec![0x41, 0xD3, 0xE1], emit(|buf| emit_shll_reg_cl(buf, R9)));
}

#[test]
fn test_cmp_memindex_reg() {
    let p = MachineMode::Ptr;

    // cmp [rax+rbx*8+1],rcx
    assert_eq!(vec![0x48, 0x39, 0x4c, 0xd8, 1], emit(|buf| emit_cmp_memindex_reg(buf, p, RAX, RBX, 8, 1, RCX)));

    // cmp [rax+rbx*8],rcx
    assert_eq!(vec![0x48, 0x39, 0x0c, 0xd8], emit(|buf| emit_cmp_memindex_reg(buf, p, RAX, RBX, 8, 0, RCX)));

    // cmp [rax+rbx*8+256],rcx
    assert_eq!(vec![0x48, 0x39, 0x8c, 0xd8, 0, 1, 0, 0], emit(|buf| emit_cmp_memindex_reg(buf, p, RAX, RBX, 8, 256, RCX)));

    // cmp [r8+rbp*1],rsp
    assert_eq!(vec![0x49, 0x39, 0x24, 0x28], emit(|buf| emit_cmp_memindex_reg(buf, p, R8, RBP, 1, 0, RSP)));

    // cmp [rsi+r9*1],rdi
    assert_eq!(vec![0x4a, 0x39, 0x3c, 0x0e], emit(|buf| emit_cmp_memindex_reg(buf, p, RSI, R9, 1, 0, RDI)));

    // cmp [rsp+rsi*1],r15
    assert_eq!(vec![0x4c, 0x39, 0x3c, 0x34], emit(|buf| emit_cmp_memindex_reg(buf, p, RSP, RSI, 1, 0, R15)));

    // cmp [rsp+rbp],rax
    assert_eq!(vec![0x48, 0x39, 0x04, 0x2c], emit(|buf| emit_cmp_memindex_reg(buf, p, RSP, RBP, 1, 0, RAX)));

}

#[test]
fn test_cmp_mem_reg() {
    let p = MachineMode::Ptr;

    // cmp [rbx+1],rax
    assert_eq!(vec![0x48, 0x39, 0x43, 1], emit(|buf| emit_cmp_mem_reg(buf, p, RBX, 1, RAX)));

    // cmp [rbx+256],rax
    assert_eq!(vec![0x48, 0x39, 0x83, 0, 1, 0, 0], emit(|buf| emit_cmp_mem_reg(buf, p, RBX, 256, RAX)));

    // cmp [rdi+1],rax
    assert_eq!(vec![0x48, 0x39, 0x47, 1], emit(|buf| emit_cmp_mem_reg(buf, p, RDI, 1, RAX)));

    // cmp [r9+1],rax
    assert_eq!(vec![0x49, 0x39, 0x41, 1], emit(|buf| emit_cmp_mem_reg(buf, p, R9, 1, RAX)));

    // cmp [rdi+1],r10
    assert_eq!(vec![0x4c, 0x39, 0x57, 1], emit(|buf| emit_cmp_mem_reg(buf, p, RDI, 1, R10)));

    // cmp [rip+1], rax
    assert_eq!(vec![0x48, 0x39, 0x05, 1, 0, 0, 0], emit(|buf| emit_cmp_mem_reg(buf, p, RIP, 1, RAX)));

    let i = MachineMode::Int32;

    // cmp [rbx+1], eax
    assert_eq!(vec![0x39, 0x43, 1], emit(|buf| emit_cmp_mem_reg(buf, i, RBX, 1, RAX)));

    // cmp [rbx+1], r10d
    assert_eq!(vec![0x44, 0x39, 0x53, 1], emit(|buf| emit_cmp_mem_reg(buf, i, RBX, 1, R10)));
}

#[test]
fn test_cmp_mem_imm() {
    let p = MachineMode::Ptr;

    // cmp [rbx+1], 2
    assert_eq!(vec![0x48, 0x83, 0x7b, 1, 2], emit(|buf| emit_cmp_mem_imm(buf, p, RBX, 1, 2)));

    // cmp [rbx+256], 2
    assert_eq!(vec![0x48, 0x83, 0xBB, 0, 1, 0, 0, 2], emit(|buf| emit_cmp_mem_imm(buf, p, RBX, 256, 2)));

    // cmp [rdi+1], 256
    assert_eq!(vec![0x48, 0x81, 0x7F, 1, 0, 1, 0, 0], emit(|buf| emit_cmp_mem_imm(buf, p, RDI, 1, 256)));

    // cmp [r9+1], 2
    assert_eq!(vec![0x49, 0x83, 0x79, 1, 2], emit(|buf| emit_cmp_mem_imm(buf, p, R9, 1, 2)));

    let i = MachineMode::Int32;

    // cmp [rbx+1], 2
    assert_eq!(vec![0x83, 0x7B, 1, 2], emit(|buf| emit_cmp_mem_imm(buf, i, RBX, 1, 2)));

    // cmp [rbx+1], 256
    assert_eq!(vec![0x81, 0x7B, 1, 0, 1, 0, 0], emit(|buf| emit_cmp_mem_imm(buf, i, RBX, 1, 256)));

    let b = MachineMode::Int8;

    // cmp [rbx+1], 2
    assert_eq!(vec![0x80, 0x7B, 1, 2], emit(|buf| emit_cmp_mem_imm(buf, b, RBX, 1, 2)));

    // cmp [R15+256], 2
    assert_eq!(vec![0x41, 0x80, 0xBF, 0, 1, 0, 0, 2], emit(|buf| emit_cmp_mem_imm(buf, b, R15, 256, 2)));
}

#[test]
fn test_sub_imm_mem() {
    assert_eq!(vec![0x83, 0x28, 1], emit(|buf| emit_sub_imm_mem(buf, MachineMode::Int32, RAX, 1)));
    assert_eq!(vec![0x48, 0x83, 0x28, 1], emit(|buf| emit_sub_imm_mem(buf, MachineMode::Ptr, RAX, 1)));
    assert_eq!(vec![0x49, 0x83, 0x29, 1], emit(|buf| emit_sub_imm_mem(buf, MachineMode::Ptr, R9, 1)));
    assert_eq!(vec![0x49, 0x83, 0x28, 1], emit(|buf| emit_sub_imm_mem(buf, MachineMode::Ptr, R8, 1)));
    assert_eq!(vec![0x41, 0x80, 0x28, 1], emit(|buf| emit_sub_imm_mem(buf, MachineMode::Int8, R8, 1)));
}

#[test]
fn test_mov_memindex_reg() {
    assert_eq!(vec![0x48, 0x8b, 0x54, 0x88, 0x0c], emit(|buf| emit_mov_memindex_reg(buf, MachineMode::Ptr, RAX, RCX, 4, 12, RDX)));
    assert_eq!(vec![0x8b, 0x54, 0x88, 0x0c], emit(|buf| emit_mov_memindex_reg(buf, MachineMode::Int32, RAX, RCX, 4, 12, RDX)));
    assert_eq!(vec![0x8a, 0x54, 0x88, 0x0c], emit(|buf| emit_mov_memindex_reg(buf, MachineMode::Int8, RAX, RCX, 4, 12, RDX)));

    assert_eq!(vec![0x4f, 0x8b, 0x6c, 0xfe, 0x10], emit(|buf| emit_mov_memindex_reg(buf, MachineMode::Ptr, R14, R15, 8, 16, R13)));
}

#[test]
fn test_mov_reg_memindex() {
    assert_eq!(vec![0x48, 0x89, 0x54, 0x88, 0x0c], emit(|buf| emit_mov_reg_memindex(buf, MachineMode::Ptr, RDX, RAX, RCX, 4, 12)));
    assert_eq!(vec![0x89, 0x54, 0x88, 0x0c], emit(|buf| emit_mov_reg_memindex(buf, MachineMode::Int32, RDX, RAX, RCX, 4, 12)));
    assert_eq!(vec![0x88, 0x54, 0x88, 0x0c], emit(|buf| emit_mov_reg_memindex(buf, MachineMode::Int8, RDX, RAX, RCX, 4, 12)));

    assert_eq!(vec![0x4f, 0x89, 0x6c, 0xfe, 0x10], emit(|buf| emit_mov_reg_memindex(buf, MachineMode::Ptr, R13, R14, R15, 8, 16)));
}
