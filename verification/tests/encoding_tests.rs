use proy::x86assembler::{X86Assembler, X86Fpr, X86Gpr, X86InsFormatter};

fn fresh() -> X86Assembler {
    X86Assembler::new()
}

#[test]
fn test_gpr_encodings() {
    let regs = [
        X86Gpr::Eax,
        X86Gpr::Ecx,
        X86Gpr::Edx,
        X86Gpr::Ebx,
        X86Gpr::Esp,
        X86Gpr::Ebp,
        X86Gpr::Esi,
        X86Gpr::Edi,
        X86Gpr::R8,
        X86Gpr::R9,
        X86Gpr::R10,
        X86Gpr::R11,
        X86Gpr::R12,
        X86Gpr::R13,
        X86Gpr::R14,
        X86Gpr::R15,
    ];
    for (i, r) in regs.iter().enumerate() {
        assert_eq!(i as u8, r.encoding());
    }
}

#[test]
fn test_fpr_encodings() {
    let regs = [
        X86Fpr::XMM0,
        X86Fpr::XMM1,
        X86Fpr::XMM2,
        X86Fpr::XMM3,
        X86Fpr::XMM4,
        X86Fpr::XMM5,
        X86Fpr::XMM6,
        X86Fpr::XMM7,
    ];
    for (i, r) in regs.iter().enumerate() {
        assert_eq!(i as u8, r.encoding());
    }
}

#[test]
fn test_ret_int3_prefix() {
    let mut a = fresh();
    a.ret();
    a.int3();
    a.predict_not_taken();
    assert_eq!(&[0xC3, 0xCC, 0x2E], a.code());
}

#[test]
fn test_end_to_end_add_function_bytes() {
    // move rsi into rax; add rdi into rax; return
    let mut a = fresh();
    a.movq_rr(X86Gpr::Esi.encoding(), X86Gpr::Eax.encoding());
    a.addq_rr(X86Gpr::Edi.encoding(), X86Gpr::Eax.encoding());
    a.ret();
    assert_eq!(&[0x48, 0x89, 0xF0, 0x48, 0x01, 0xF8, 0xC3], a.code());
}

#[test]
fn test_addl_rr_no_rex() {
    let mut a = fresh();
    a.addl_rr(1, 3);
    assert_eq!(&[0x01, 0xCB], a.code());
}

#[test]
fn test_addl_rr_rex_for_extended_source() {
    let mut a = fresh();
    a.addl_rr(8, 0);
    assert_eq!(&[0x44, 0x01, 0xC0], a.code());
}

#[test]
fn test_addl_rr_rex_for_extended_destination() {
    let mut a = fresh();
    a.addl_rr(0, 9);
    assert_eq!(&[0x41, 0x01, 0xC1], a.code());
}

#[test]
fn test_push_pop_r() {
    let mut a = fresh();
    a.push_r(0);
    a.push_r(8);
    a.pop_r(1);
    assert_eq!(&[0x50, 0x41, 0x50, 0x59], a.code());
}

#[test]
fn test_push_i32() {
    let mut a = fresh();
    a.push_i32(5);
    assert_eq!(&[0x68, 0x05, 0x00, 0x00, 0x00], a.code());
}

#[test]
fn test_push_m_pop_m() {
    let mut a = fresh();
    a.push_m(8, 3);
    a.pop_m(0, 3);
    assert_eq!(&[0xFF, 0x73, 0x08, 0x8F, 0x03], a.code());
}

#[test]
fn test_displacement_omitted_for_plain_base() {
    let mut a = fresh();
    a.addl_mr(0, 3, 0);
    assert_eq!(&[0x03, 0x03], a.code());
}

#[test]
fn test_displacement_one_byte_when_it_fits() {
    let mut a = fresh();
    a.addl_mr(8, 3, 0);
    assert_eq!(&[0x03, 0x43, 0x08], a.code());
}

#[test]
fn test_displacement_one_byte_negative() {
    let mut a = fresh();
    a.addl_mr(-4, 3, 0);
    assert_eq!(&[0x03, 0x43, 0xFC], a.code());
}

#[test]
fn test_displacement_four_bytes_otherwise() {
    let mut a = fresh();
    a.addl_mr(300, 3, 0);
    assert_eq!(&[0x03, 0x83, 0x2C, 0x01, 0x00, 0x00], a.code());
}

#[test]
fn test_zero_displacement_explicit_for_no_base_encoding() {
    // base five is the reserved "no-base" encoding: zero cannot be omitted
    let mut a = fresh();
    a.addl_mr(0, 5, 0);
    assert_eq!(&[0x03, 0x45, 0x00], a.code());
}

#[test]
fn test_sib_mandatory_for_stack_pointer_base() {
    let mut a = fresh();
    a.addl_mr(0, 4, 0);
    assert_eq!(&[0x03, 0x04, 0x24], a.code());
}

#[test]
fn test_sib_mandatory_for_extended_stack_pointer_base() {
    let mut a = fresh();
    a.addl_mr(0, 12, 0);
    assert_eq!(&[0x41, 0x03, 0x04, 0x24], a.code());
}

#[test]
fn test_zero_displacement_explicit_for_extended_no_base() {
    let mut a = fresh();
    a.addl_mr(0, 13, 0);
    assert_eq!(&[0x41, 0x03, 0x45, 0x00], a.code());
}

#[test]
fn test_sib_base_with_displacement() {
    let mut a = fresh();
    a.addl_mr(8, 4, 0);
    a.addl_mr(300, 4, 0);
    assert_eq!(
        &[0x03, 0x44, 0x24, 0x08, 0x03, 0x84, 0x24, 0x2C, 0x01, 0x00, 0x00],
        a.code()
    );
}

#[test]
fn test_addl_rm() {
    let mut a = fresh();
    a.addl_rm(0, 8, 3);
    assert_eq!(&[0x01, 0x43, 0x08], a.code());
}

#[test]
fn test_addl_ir_narrow_and_wide() {
    let mut a = fresh();
    a.addl_ir(5, 0);
    a.addl_ir(-1, 0);
    a.addl_ir(300, 0);
    assert_eq!(
        &[0x83, 0xC0, 0x05, 0x83, 0xC0, 0xFF, 0x81, 0xC0, 0x2C, 0x01, 0x00, 0x00],
        a.code()
    );
}

#[test]
fn test_addq_forms() {
    let mut a = fresh();
    a.addq_rr(7, 0);
    a.addq_mr(0, 3, 1);
    a.addq_ir(5, 0);
    a.addq_ir(300, 0);
    a.addq_im(1, 0, 3);
    assert_eq!(
        &[
            0x48, 0x01, 0xF8, // add rax, rdi
            0x48, 0x03, 0x0B, // add rcx, [rbx]
            0x48, 0x83, 0xC0, 0x05, // add rax, 5
            0x48, 0x81, 0xC0, 0x2C, 0x01, 0x00, 0x00, // add rax, 300
            0x48, 0x83, 0x03, 0x01, // add qword [rbx], 1
        ],
        a.code()
    );
}

#[test]
fn test_and_forms() {
    let mut a = fresh();
    a.andl_rr(1, 2);
    a.andl_mr(0, 3, 1);
    a.andl_rm(1, 0, 3);
    a.andl_ir(15, 1);
    a.andl_im(1, 0, 3);
    a.andq_rr(1, 2);
    a.andq_ir(15, 1);
    assert_eq!(
        &[
            0x21, 0xCA, // and edx, ecx
            0x23, 0x0B, // and ecx, [rbx]
            0x21, 0x0B, // and [rbx], ecx
            0x83, 0xE1, 0x0F, // and ecx, 15
            0x83, 0x23, 0x01, // and dword [rbx], 1
            0x48, 0x21, 0xCA, // and rdx, rcx
            0x48, 0x81, 0xE1, 0x0F, 0x00, 0x00, 0x00, // and rcx, 15
        ],
        a.code()
    );
}

#[test]
fn test_neg_not() {
    let mut a = fresh();
    a.negl_r(0);
    a.negq_r(0);
    a.notl_r(2);
    assert_eq!(&[0xF7, 0xD8, 0x48, 0xF7, 0xD8, 0xF7, 0xD2], a.code());
}

#[test]
fn test_or_forms() {
    let mut a = fresh();
    a.orl_rr(1, 0);
    a.orl_ir(1, 0);
    a.oqr_rr(1, 0);
    a.orq_ir(1, 0);
    assert_eq!(
        &[
            0x09, 0xC8, // or eax, ecx
            0x81, 0xC8, 0x01, 0x00, 0x00, 0x00, // or eax, 1
            0x48, 0x09, 0xC8, // or rax, rcx
            0x48, 0x81, 0xC8, 0x01, 0x00, 0x00, 0x00, // or rax, 1
        ],
        a.code()
    );
}

#[test]
fn test_sub_forms() {
    let mut a = fresh();
    a.subl_rr(1, 0);
    a.subl_ir(1, 0);
    a.subl_ir(300, 0);
    a.subl_im(1, 4, 3);
    assert_eq!(
        &[
            0x29, 0xC8, // sub eax, ecx
            0x83, 0xE8, 0x01, // sub eax, 1
            0x81, 0xE8, 0x2C, 0x01, 0x00, 0x00, // sub eax, 300
            0x83, 0x6B, 0x04, 0x01, // sub dword [rbx+4], 1
        ],
        a.code()
    );
}

#[test]
fn test_formatter_rex_helpers() {
    assert!(!X86InsFormatter::reg_requires_rex(7));
    assert!(X86InsFormatter::reg_requires_rex(8));
    assert!(!X86InsFormatter::byte_reg_requires_rex(3));
    assert!(X86InsFormatter::byte_reg_requires_rex(4));
}

#[test]
fn test_formatter_rex_emission() {
    let mut f = X86InsFormatter::new();
    f.emit_rex(0, 0, 0, 0);
    f.emit_rexw(0, 0, 0);
    f.emit_rex_if(false, 0, 0, 0);
    f.emit_rex_if_needed(0, 0, 0);
    f.emit_rex_if_needed(8, 0, 0);
    assert_eq!(&[0x40, 0x48, 0x44], f.data());
}

#[test]
fn test_formatter_immediates() {
    let mut f = X86InsFormatter::new();
    f.imm8(-1);
    f.imm16(-2);
    f.imm32(1);
    assert_eq!(&[0xFF, 0xFE, 0xFF, 0x01, 0x00, 0x00, 0x00], f.data());
}

#[test]
fn test_formatter_imm64() {
    let mut f = X86InsFormatter::new();
    f.imm64(-1);
    assert_eq!(&[0xFF; 8], f.data());
}

#[test]
fn test_formatter_imm_rel() {
    let mut f = X86InsFormatter::new();
    let l = f.imm_rel();
    assert_eq!(4, l.offset);
    assert_eq!(&[0x00, 0x00, 0x00, 0x00], f.data());
}

#[test]
fn test_formatter_indexed_addressing() {
    let mut f = X86InsFormatter::new();
    f.one_byte_op_4(0x8B, 0, 3, 1, 2, 0);
    f.one_byte_op_4(0x8B, 0, 3, 1, 2, 4);
    assert_eq!(&[0x8B, 0x04, 0x8B, 0x8B, 0x44, 0x8B, 0x04], f.data());
}

#[test]
fn test_formatter_indexed_no_base_zero_displacement() {
    // an indexed form over the "no-base" encoding keeps an explicit zero
    let mut f = X86InsFormatter::new();
    f.one_byte_op_4(0x8B, 0, 5, 1, 2, 0);
    assert_eq!(&[0x8B, 0x44, 0x8D, 0x00], f.data());
}

#[test]
fn test_formatter_forced_displacement_widths() {
    let mut f = X86InsFormatter::new();
    f.one_byte_op_disp8(0x8B, 0, 3, 0);
    f.one_byte_op_disp32(0x8B, 0, 3, 0);
    assert_eq!(
        &[0x8B, 0x43, 0x00, 0x8B, 0x83, 0x00, 0x00, 0x00, 0x00],
        f.data()
    );
}

#[test]
fn test_formatter_byte_operand_forms_force_rex() {
    let mut f = X86InsFormatter::new();
    f.one_byte_op8_2(0x84, 4, 0);
    f.one_byte_op8_1(0xF6, 0, 4);
    assert_eq!(&[0x40, 0x84, 0xE0, 0x40, 0xF6, 0xC4], f.data());
}

#[test]
fn test_formatter_byte_operand_forms_low_regs_no_rex() {
    let mut f = X86InsFormatter::new();
    f.one_byte_op8_2(0x84, 0, 1);
    assert_eq!(&[0x84, 0xC1], f.data());
}

#[test]
fn test_formatter_two_byte_forms() {
    let mut f = X86InsFormatter::new();
    f.two_byte_op8_2(0x94, 0, 0);
    f.two_byte_op64(0xAF, 0, 3);
    assert_eq!(&[0x0F, 0x94, 0xC0, 0x48, 0x0F, 0xAF, 0xC3], f.data());
}

#[test]
fn test_formatter_op64_forms() {
    let mut f = X86InsFormatter::new();
    f.one_byte_op64(0x99);
    f.one_byte_op64_1(0x58, 10);
    f.one_byte_op64_3(0x8B, 0, 3, 0);
    f.one_byte_op64_disp8(0x89, 0, 3, 8);
    f.one_byte_op64_4(0x8B, 0, 3, 1, 3, 0);
    assert_eq!(
        &[
            0x48, 0x99, // cqo
            0x49, 0x5A, // pop r10
            0x48, 0x8B, 0x03, // mov rax, [rbx]
            0x48, 0x89, 0x43, 0x08, // mov [rbx+8], rax
            0x48, 0x8B, 0x04, 0xCB, // mov rax, [rbx+rcx*8]
        ],
        f.data()
    );
}

#[test]
fn test_formatter_op8_indexed() {
    let mut f = X86InsFormatter::new();
    f.one_byte_op8_3(0x88, 0, 3, 1, 0, 0);
    assert_eq!(&[0x88, 0x04, 0x0B], f.data());
}

#[test]
fn test_formatter_prefix_and_label() {
    let mut f = X86InsFormatter::new();
    f.prefix(0x66);
    f.one_byte_op_1(0x90);
    assert_eq!(2, f.label().offset);
    assert_eq!(2, f.code_size());
    assert_eq!(&[0x66, 0x90], f.data());
}

#[test]
fn test_formatter_op_2_packs_register() {
    let mut f = X86InsFormatter::new();
    f.one_byte_op_2(0xB8, 3);
    f.one_byte_op_2(0xB8, 9);
    assert_eq!(&[0xBB, 0x41, 0xB9], f.data());
}
