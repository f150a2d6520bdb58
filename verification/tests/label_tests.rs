use proy::x86assembler::X86Assembler;

#[test]
fn test_labels_differ_by_emitted_bytes() {
    // two labels around emissions totalling two bytes differ by exactly two
    let mut a = X86Assembler::new();
    let l1 = a.label();
    a.ret();
    a.int3();
    let l2 = a.label();
    assert_eq!(0, l1.offset);
    assert_eq!(2, l2.offset - l1.offset);
}

#[test]
fn test_labels_without_emission_are_equal() {
    let mut a = X86Assembler::new();
    let l1 = a.label();
    let l2 = a.label();
    assert_eq!(l1.offset, l2.offset);
}

#[test]
fn test_watchpoint_reserves_five_bytes() {
    let mut a = X86Assembler::new();
    let w = a.label_for_watchpoit();
    assert_eq!(0, w.offset);
    let l = a.label();
    assert_eq!(5, l.offset);
    // the reserved slot is padded with single-byte no-ops
    assert_eq!(&[0x90, 0x90, 0x90, 0x90, 0x90], a.code());
}

#[test]
fn test_watchpoint_after_emission() {
    let mut a = X86Assembler::new();
    a.ret();
    let w = a.label_for_watchpoit();
    assert_eq!(1, w.offset);
    let l = a.label();
    assert_eq!(6, l.offset);
    assert_eq!(&[0xC3, 0x90, 0x90, 0x90, 0x90, 0x90], a.code());
}

#[test]
fn test_watchpoint_reserved_twice_reuses_slot() {
    let mut a = X86Assembler::new();
    let w1 = a.label_for_watchpoit();
    let w2 = a.label_for_watchpoit();
    assert_eq!(w1.offset, w2.offset);
    assert_eq!(0, a.code().len());
}

#[test]
fn test_emission_then_label_keeps_five_byte_gap() {
    let mut a = X86Assembler::new();
    let w = a.label_for_watchpoit();
    a.ret();
    let l = a.label();
    assert_eq!(5, l.offset - w.offset);
    assert_eq!(&[0xC3, 0x90, 0x90, 0x90, 0x90], a.code());
}

#[test]
fn test_label_ignoring_watchpoints_skips_padding() {
    let mut a = X86Assembler::new();
    a.label_for_watchpoit();
    let raw = a.label_ignoring_watchpoints();
    assert_eq!(0, raw.offset);
    assert_eq!(0, a.code().len());
}

#[test]
fn test_align_pads_with_trap_bytes() {
    let mut a = X86Assembler::new();
    a.ret();
    let l = a.align(4);
    assert_eq!(4, l.offset);
    assert_eq!(&[0xC3, 0xF4, 0xF4, 0xF4], a.code());
}

#[test]
fn test_align_when_already_aligned() {
    let mut a = X86Assembler::new();
    a.ret();
    a.int3();
    let l = a.align(2);
    assert_eq!(2, l.offset);
    assert_eq!(&[0xC3, 0xCC], a.code());
}

#[test]
fn test_align_on_empty_buffer() {
    let mut a = X86Assembler::new();
    let l = a.align(16);
    assert_eq!(0, l.offset);
    assert_eq!(0, a.code().len());
}
