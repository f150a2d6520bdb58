use proy::assembler::AssemblerLabel;
use proy::x86assembler::{X86Assembler, OP_CALL_rel32, OP_JMP_rel32};

#[test]
fn test_relink_call_field_is_target_minus_end_of_call() {
    // emit a call with a placeholder displacement, record its label, emit
    // more code, relink to a chosen target: the 4-byte field equals
    // target - (call_site + 5)
    let mut a = X86Assembler::new();
    a.formatter.one_byte_op_1(OP_CALL_rel32);
    let lab = a.formatter.imm_rel();
    a.ret();
    a.ret();
    a.relink_call(lab.offset as usize, 100);
    let expected: i32 = 100 - 5;
    assert_eq!(&expected.to_le_bytes(), &a.code()[1..5]);
    // the opcode and the code after the field are untouched
    assert_eq!(0xE8, a.code()[0]);
    assert_eq!(0xC3, a.code()[5]);
    assert_eq!(0xC3, a.code()[6]);
}

#[test]
fn test_relink_jump_backward_target() {
    let mut a = X86Assembler::new();
    a.ret();
    a.formatter.one_byte_op_1(OP_JMP_rel32);
    let lab = a.formatter.imm_rel();
    a.relink_jump(lab.offset as usize, 0);
    let expected: i32 = -(lab.offset as i32);
    assert_eq!(&expected.to_le_bytes(), &a.code()[2..6]);
}

#[test]
fn test_link_jump_between_labels() {
    let mut a = X86Assembler::new();
    a.formatter.one_byte_op_1(OP_JMP_rel32);
    let lab = a.formatter.imm_rel();
    a.ret();
    a.ret();
    a.ret();
    a.link_jump(lab, AssemblerLabel::new(8));
    let expected: i32 = 3;
    assert_eq!(&expected.to_le_bytes(), &a.code()[1..5]);
}

#[test]
fn test_repatch_i32() {
    let mut a = X86Assembler::new();
    a.formatter.imm32(0);
    a.repatch_i32(4, -1);
    assert_eq!(&[0xFF, 0xFF, 0xFF, 0xFF], a.code());
}

#[test]
fn test_repatch_ptr_and_read_ptr() {
    let mut a = X86Assembler::new();
    a.formatter.imm64(0);
    a.repatch_ptr(8, 0x1122334455667788);
    assert_eq!(
        &[0x88, 0x77, 0x66, 0x55, 0x44, 0x33, 0x22, 0x11],
        a.code()
    );
    assert_eq!(0x1122334455667788, a.read_ptr(8));
}

#[test]
fn test_set_i8() {
    let mut a = X86Assembler::new();
    a.formatter.imm8(0);
    a.set_i8(1, -1);
    assert_eq!(&[0xFF], a.code());
}

#[test]
fn test_get_relocate_offset() {
    assert_eq!(7, X86Assembler::get_relocate_offset(AssemblerLabel::new(7)));
}

#[test]
fn test_link_ptr_writes_before_label() {
    let mut a = X86Assembler::new();
    a.formatter.imm64(0);
    a.ret();
    a.link_ptr(AssemblerLabel::new(8), 0x0102030405060708);
    assert_eq!(
        &[0x08, 0x07, 0x06, 0x05, 0x04, 0x03, 0x02, 0x01, 0xC3],
        a.code()
    );
}

#[test]
fn test_replace_with_address_computation_skips_rex() {
    let mut a = X86Assembler::new();
    a.formatter.one_byte_op64_3(0x8B, 0, 3, 0);
    assert_eq!(&[0x48, 0x8B, 0x03], a.code());
    a.replace_with_address_computation(0);
    assert_eq!(&[0x48, 0x8D, 0x03], a.code());
    // reversible: swap back to the load form
    a.replace_with_load(0);
    assert_eq!(&[0x48, 0x8B, 0x03], a.code());
}

#[test]
fn test_replace_with_address_computation_no_rex() {
    let mut a = X86Assembler::new();
    a.formatter.one_byte_op_3(0x8B, 0, 3, 0);
    assert_eq!(&[0x8B, 0x03], a.code());
    a.replace_with_address_computation(0);
    assert_eq!(&[0x8D, 0x03], a.code());
}

#[test]
fn test_replace_with_load_idempotent_on_load() {
    let mut a = X86Assembler::new();
    a.formatter.one_byte_op_3(0x8B, 0, 3, 0);
    a.replace_with_load(0);
    assert_eq!(&[0x8B, 0x03], a.code());
}

#[test]
fn test_replace_with_jump() {
    let mut a = X86Assembler::new();
    for _ in 0..5 {
        a.int3();
    }
    a.replace_with_jump(0, 16);
    let expected: i32 = 16 - 5;
    assert_eq!(0xE9, a.code()[0]);
    assert_eq!(&expected.to_le_bytes(), &a.code()[1..5]);
}

#[test]
fn test_revert_to_generic_compare_register_is_six_bytes() {
    // the rewrite always takes the widest immediate form: exactly six
    // bytes, and the byte after the span does not move
    let mut a = X86Assembler::new();
    for _ in 0..7 {
        a.int3();
    }
    a.revert_jump_to_cmpl_ir_force32(0, 1, 2);
    assert_eq!(&[0x81, 0xFA, 0x01, 0x00, 0x00, 0x00, 0xCC], a.code());
    assert_eq!(7, a.code().len());
}

#[test]
fn test_revert_to_generic_compare_memory() {
    let mut a = X86Assembler::new();
    for _ in 0..6 {
        a.int3();
    }
    a.revert_jump_to_cmpl_im_force32(0, 1, 0, 2);
    assert_eq!(&[0x81, 0x3A, 0x01, 0x00, 0x00, 0x00], a.code());
}

#[test]
fn test_revert_to_generic_move64_is_ten_bytes() {
    let mut a = X86Assembler::new();
    for _ in 0..11 {
        a.int3();
    }
    a.revert_jump_to_movq_i64r(0, -2, 10);
    assert_eq!(
        &[0x49, 0xBA, 0xFE, 0xFF, 0xFF, 0xFF, 0xFF, 0xFF, 0xFF, 0xFF, 0xCC],
        a.code()
    );
}

#[test]
fn test_patching_preserves_watchpoint_padding() {
    // patching never moves code: a label taken after a patch still lands
    // past the watchpoint tail
    let mut a = X86Assembler::new();
    a.formatter.imm32(0);
    let w = a.label_for_watchpoit();
    a.repatch_i32(4, 7);
    let l = a.label();
    assert_eq!(w.offset + 5, l.offset);
}
