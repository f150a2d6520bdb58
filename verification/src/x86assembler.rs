//! The x86-64 instruction encoder: operand addressing forms (ModRM/SIB),
//! the REX prefix, the mnemonic-level emitter with its label/watchpoint
//! protocol, and the in-place patch/relink operations.
//!
//! Every emission is specified byte-for-byte against spec functions that
//! state the encoding rules once, so the displacement-width and REX rules
//! are facts of the contracts, not of the code alone.

use vstd::prelude::*;

verus! {

use crate::assembler::{
    AssemblerBuffer, AssemblerLabel, byte_of_i32, le_bytes2, le_bytes4_i32, le_bytes8,
    le_bytes8_i64, u32_of_i32, u64_of_i64,
};

/// General-purpose register names; the variant order gives each register
/// its hardware encoding, `encoding` below spells it out.
#[derive(Copy, Clone, PartialEq, Eq, Structural, Debug, Hash)]
pub enum X86Gpr {
    Eax,
    Ecx,
    Edx,
    Ebx,
    Esp,
    Ebp,
    Esi,
    Edi,
    R8,
    R9,
    R10,
    R11,
    R12,
    R13,
    R14,
    R15,
}

impl X86Gpr {
    /// The hardware encoding of the register.
    pub open spec fn spec_encoding(self) -> u8 {
        match self {
            X86Gpr::Eax => 0,
            X86Gpr::Ecx => 1,
            X86Gpr::Edx => 2,
            X86Gpr::Ebx => 3,
            X86Gpr::Esp => 4,
            X86Gpr::Ebp => 5,
            X86Gpr::Esi => 6,
            X86Gpr::Edi => 7,
            X86Gpr::R8 => 8,
            X86Gpr::R9 => 9,
            X86Gpr::R10 => 10,
            X86Gpr::R11 => 11,
            X86Gpr::R12 => 12,
            X86Gpr::R13 => 13,
            X86Gpr::R14 => 14,
            X86Gpr::R15 => 15,
        }
    }

    /// The hardware encoding of the register.
    pub fn encoding(self) -> (r: u8)
        ensures
            r == self.spec_encoding(),
            r <= 15,
    {
        match self {
            X86Gpr::Eax => 0,
            X86Gpr::Ecx => 1,
            X86Gpr::Edx => 2,
            X86Gpr::Ebx => 3,
            X86Gpr::Esp => 4,
            X86Gpr::Ebp => 5,
            X86Gpr::Esi => 6,
            X86Gpr::Edi => 7,
            X86Gpr::R8 => 8,
            X86Gpr::R9 => 9,
            X86Gpr::R10 => 10,
            X86Gpr::R11 => 11,
            X86Gpr::R12 => 12,
            X86Gpr::R13 => 13,
            X86Gpr::R14 => 14,
            X86Gpr::R15 => 15,
        }
    }
}

/// Floating-point (SSE) register names, in hardware-encoding order.
#[derive(Copy, Clone, PartialEq, Eq, Structural, Debug, Hash)]
pub enum X86Fpr {
    XMM0,
    XMM1,
    XMM2,
    XMM3,
    XMM4,
    XMM5,
    XMM6,
    XMM7,
}

impl X86Fpr {
    /// The hardware encoding of the register.
    pub open spec fn spec_encoding(self) -> u8 {
        match self {
            X86Fpr::XMM0 => 0,
            X86Fpr::XMM1 => 1,
            X86Fpr::XMM2 => 2,
            X86Fpr::XMM3 => 3,
            X86Fpr::XMM4 => 4,
            X86Fpr::XMM5 => 5,
            X86Fpr::XMM6 => 6,
            X86Fpr::XMM7 => 7,
        }
    }

    /// The hardware encoding of the register.
    pub fn encoding(self) -> (r: u8)
        ensures
            r == self.spec_encoding(),
            r <= 7,
    {
        match self {
            X86Fpr::XMM0 => 0,
            X86Fpr::XMM1 => 1,
            X86Fpr::XMM2 => 2,
            X86Fpr::XMM3 => 3,
            X86Fpr::XMM4 => 4,
            X86Fpr::XMM5 => 5,
            X86Fpr::XMM6 => 6,
            X86Fpr::XMM7 => 7,
        }
    }
}

/// The register encoding that forces a SIB byte when used as a base.
pub const HAS_SIB: u8 = 4;

/// The register encoding that cannot carry an omitted zero displacement.
pub const NO_BASE: u8 = 5;

/// The index encoding that means "no index" inside a SIB byte.
pub const NO_INDEX: u8 = 4;

/// The extended-register counterpart of `NO_BASE`.
pub const NO_BASE2: u8 = 13;

/// The extended-register counterpart of `HAS_SIB`.
pub const HAS_SIB2: u8 = 12;

pub const OP_ADD_EvGv: u8 = 0x01;

pub const OP_ADD_GvEv: u8 = 0x03;

pub const OP_OR_EvGv: u8 = 0x09;

pub const OP_2BYTE_ESCAPE: u8 = 0x0F;

pub const OP_AND_EvGv: u8 = 0x21;

pub const OP_AND_GvEv: u8 = 0x23;

pub const OP_SUB_EvGv: u8 = 0x29;

pub const PRE_PREDICT_BRANCH_NOT_TAKEN: u8 = 0x2E;

pub const PRE_REX: u8 = 0x40;

pub const OP_PUSH_EAX: u8 = 0x50;

pub const OP_POP_EAX: u8 = 0x58;

pub const OP_PUSH_Iz: u8 = 0x68;

pub const OP_GROUP1_EvIz: u8 = 0x81;

pub const OP_GROUP1_EvIb: u8 = 0x83;

pub const OP_MOV_EvGv: u8 = 0x89;

pub const OP_MOV_GvEv: u8 = 0x8B;

pub const OP_LEA: u8 = 0x8D;

pub const OP_GROUP1A_Ev: u8 = 0x8F;

pub const OP_NOP: u8 = 0x90;

pub const OP_MOV_EAXIv: u8 = 0xB8;

pub const OP_RET: u8 = 0xC3;

pub const OP_INT3: u8 = 0xCC;

pub const OP_CALL_rel32: u8 = 0xE8;

pub const OP_JMP_rel32: u8 = 0xE9;

pub const OP_HLT: u8 = 0xF4;

pub const OP_GROUP3_Ev: u8 = 0xF7;

pub const OP_GROUP5_Ev: u8 = 0xFF;

pub const GROUP1_OP_ADD: u8 = 0;

pub const GROUP1_OP_OR: u8 = 1;

pub const GROUP1_OP_AND: u8 = 4;

pub const GROUP1_OP_SUB: u8 = 5;

pub const GROUP1_OP_CMP: u8 = 7;

pub const GROUP1A_OP_POP: u8 = 0;

pub const GROUP3_OP_NOT: u8 = 2;

pub const GROUP3_OP_NEG: u8 = 3;

pub const GROUP5_OP_PUSH: u8 = 6;

/// Returns true if the value fits a sign-extended 8-bit immediate.
pub fn can_sign_extend(x: i32) -> (r: bool)
    ensures
        r <==> (-128 <= x <= 127),
{
    -128 <= x && x <= 127
}

/// The ModRM byte: two mode bits, a register field, a register/memory field.
pub open spec fn modrm_byte(mode: u8, r: u8, rm: u8) -> u8
    recommends
        mode <= 3,
{
    (mode << 6) | ((r & 7) << 3) | (rm & 7)
}

/// The SIB byte: two scale bits, an index field, a base field.
pub open spec fn sib_byte(scale: u8, index: u8, base: u8) -> u8
    recommends
        scale <= 3,
{
    (scale << 6) | ((index & 7) << 3) | (base & 7)
}

/// The REX prefix byte: a width bit and one extension bit each for the
/// register, index and base encodings.
pub open spec fn rex_byte(w: u8, r: u8, x: u8, b: u8) -> u8
    recommends
        w <= 1 && r <= 15 && x <= 15 && b <= 15,
{
    PRE_REX | (w << 3) | ((r >> 3) << 2) | ((x >> 3) << 1) | (b >> 3)
}

/// A REX prefix is mandatory when any involved encoding names an
/// extended register.
pub open spec fn rex_needed(r: u8, x: u8, b: u8) -> bool {
    r >= 8 || x >= 8 || b >= 8
}

/// In 8-bit-operand forms, encodings four to seven would name the legacy
/// high-byte registers without a REX prefix, so those force one too.
pub open spec fn byte_reg_needs_rex(r: u8) -> bool {
    r >= 4
}

/// The REX prefix emitted under the given condition: one byte, or nothing.
pub open spec fn rex_if(cond: bool, r: u8, x: u8, b: u8) -> Seq<u8> {
    if cond {
        seq![rex_byte(0, r, x, b)]
    } else {
        Seq::<u8>::empty()
    }
}

/// Whether a base register encoding makes the SIB byte mandatory.
pub open spec fn base_has_sib(base: u8) -> bool {
    base == HAS_SIB || base == HAS_SIB2
}

/// Whether a base register encoding forbids omitting a zero displacement.
pub open spec fn base_is_no_base(base: u8) -> bool {
    base == NO_BASE || base == NO_BASE2
}

/// The trailing bytes of a base-plus-displacement memory operand:
/// ModRM, a SIB byte when the base demands one, and the narrowest legal
/// displacement.
pub open spec fn mem_operand_bytes(r: u8, base: u8, offset: i32) -> Seq<u8> {
    if base_has_sib(base) {
        if offset == 0 {
            seq![modrm_byte(0, r, HAS_SIB), sib_byte(0, NO_INDEX, base)]
        } else if -128 <= offset <= 127 {
            seq![modrm_byte(1, r, HAS_SIB), sib_byte(0, NO_INDEX, base), byte_of_i32(offset)]
        } else {
            seq![modrm_byte(2, r, HAS_SIB), sib_byte(0, NO_INDEX, base)] + le_bytes4_i32(offset)
        }
    } else {
        if offset == 0 && !base_is_no_base(base) {
            seq![modrm_byte(0, r, base)]
        } else if -128 <= offset <= 127 {
            seq![modrm_byte(1, r, base), byte_of_i32(offset)]
        } else {
            seq![modrm_byte(2, r, base)] + le_bytes4_i32(offset)
        }
    }
}

/// The trailing bytes of a memory operand with a forced 1-byte displacement.
pub open spec fn mem_operand_disp8_bytes(r: u8, base: u8, offset: i32) -> Seq<u8>
    recommends
        -128 <= offset <= 127,
{
    if base_has_sib(base) {
        seq![modrm_byte(1, r, HAS_SIB), sib_byte(0, NO_INDEX, base), byte_of_i32(offset)]
    } else {
        seq![modrm_byte(1, r, base), byte_of_i32(offset)]
    }
}

/// The trailing bytes of a memory operand with a forced 4-byte displacement.
pub open spec fn mem_operand_disp32_bytes(r: u8, base: u8, offset: i32) -> Seq<u8> {
    if base_has_sib(base) {
        seq![modrm_byte(2, r, HAS_SIB), sib_byte(0, NO_INDEX, base)] + le_bytes4_i32(offset)
    } else {
        seq![modrm_byte(2, r, base)] + le_bytes4_i32(offset)
    }
}

/// The trailing bytes of a base-plus-scaled-index memory operand: ModRM
/// selecting the SIB form, the SIB byte, and the narrowest legal
/// displacement.
pub open spec fn mem_operand_sib_bytes(r: u8, base: u8, index: u8, scale: u8, offset: i32) -> Seq<
    u8,
> {
    if offset == 0 && !base_is_no_base(base) {
        seq![modrm_byte(0, r, HAS_SIB), sib_byte(scale, index, base)]
    } else if -128 <= offset <= 127 {
        seq![modrm_byte(1, r, HAS_SIB), sib_byte(scale, index, base), byte_of_i32(offset)]
    } else {
        seq![modrm_byte(2, r, HAS_SIB), sib_byte(scale, index, base)] + le_bytes4_i32(offset)
    }
}

/// Encodes operand addressing forms after an opcode and owns the code
/// buffer the bytes go into.
pub struct X86InsFormatter {
    buffer: AssemblerBuffer,
}

impl View for X86InsFormatter {
    type V = Seq<u8>;

    closed spec fn view(&self) -> Seq<u8> {
        self.buffer@
    }
}

/// The two's-complement byte of a signed value in the 8-bit range.
fn disp8_of(offset: i32) -> (r: u8)
    requires
        -128 <= offset <= 127,
    ensures
        r == byte_of_i32(offset),
{
    if offset >= 0 {
        offset as u8
    } else {
        (offset + 256) as u8
    }
}

impl X86InsFormatter {
    pub fn new() -> (r: Self)
        ensures
            r@ == Seq::<u8>::empty(),
    {
        X86InsFormatter { buffer: AssemblerBuffer::new() }
    }

    /// Whether the encoding names an extended register, making a REX
    /// prefix mandatory.
    pub fn reg_requires_rex(r: u8) -> (res: bool)
        ensures
            res <==> rex_needed(r, 0, 0),
    {
        r >= 8
    }

    /// Whether an 8-bit-operand form needs a REX prefix for this encoding.
    pub fn byte_reg_requires_rex(r: u8) -> (res: bool)
        ensures
            res <==> byte_reg_needs_rex(r),
    {
        r >= 4
    }

    fn put_modrm(&mut self, mode: u8, r: u8, rm: u8)
        requires
            mode <= 3,
        ensures
            final(self)@ == old(self)@ + seq![modrm_byte(mode, r, rm)],
    {
        self.buffer.put_byte((mode << 6) | ((r & 7) << 3) | (rm & 7));
    }

    fn put_modrm_sib(&mut self, mode: u8, r: u8, base: u8, index: u8, scale: u8)
        requires
            mode <= 3,
            scale <= 3,
        ensures
            final(self)@ == old(self)@ + seq![
                modrm_byte(mode, r, HAS_SIB),
                sib_byte(scale, index, base),
            ],
    {
        self.put_modrm(mode, r, HAS_SIB);
        self.buffer.put_byte((scale << 6) | ((index & 7) << 3) | (base & 7));
        proof {
            assert(self@ =~= old(self)@ + seq![
                modrm_byte(mode, r, HAS_SIB),
                sib_byte(scale, index, base),
            ]);
        }
    }

    fn register_modrm(&mut self, reg: u8, rm: u8)
        ensures
            final(self)@ == old(self)@ + seq![modrm_byte(3, reg, rm)],
    {
        self.put_modrm(3, reg, rm);
    }

    fn memory_modrm_1(&mut self, r: u8, base: u8, offset: i32)
        ensures
            final(self)@ == old(self)@ + mem_operand_bytes(r, base, offset),
    {
        if base == HAS_SIB || base == HAS_SIB2 {
            if offset == 0 {
                self.put_modrm_sib(0, r, base, NO_INDEX, 0);
            } else if can_sign_extend(offset) {
                self.put_modrm_sib(1, r, base, NO_INDEX, 0);
                self.buffer.put_byte(disp8_of(offset));
            } else {
                self.put_modrm_sib(2, r, base, NO_INDEX, 0);
                self.buffer.put_int(offset);
            }
        } else {
            if offset == 0 && base != NO_BASE && base != NO_BASE2 {
                self.put_modrm(0, r, base);
            } else if can_sign_extend(offset) {
                self.put_modrm(1, r, base);
                self.buffer.put_byte(disp8_of(offset));
            } else {
                self.put_modrm(2, r, base);
                self.buffer.put_int(offset);
            }
        }
        proof {
            assert(self@ =~= old(self)@ + mem_operand_bytes(r, base, offset));
        }
    }

    fn memory_modrm_disp8(&mut self, r: u8, base: u8, offset: i32)
        requires
            -128 <= offset <= 127,
        ensures
            final(self)@ == old(self)@ + mem_operand_disp8_bytes(r, base, offset),
    {
        if base == HAS_SIB || base == HAS_SIB2 {
            self.put_modrm_sib(1, r, base, NO_INDEX, 0);
            self.buffer.put_byte(disp8_of(offset));
        } else {
            self.put_modrm(1, r, base);
            self.buffer.put_byte(disp8_of(offset));
        }
        proof {
            assert(self@ =~= old(self)@ + mem_operand_disp8_bytes(r, base, offset));
        }
    }

    fn memory_modrm_disp32(&mut self, r: u8, base: u8, offset: i32)
        ensures
            final(self)@ == old(self)@ + mem_operand_disp32_bytes(r, base, offset),
    {
        if base == HAS_SIB || base == HAS_SIB2 {
            self.put_modrm_sib(2, r, base, NO_INDEX, 0);
            self.buffer.put_int(offset);
        } else {
            self.put_modrm(2, r, base);
            self.buffer.put_int(offset);
        }
        proof {
            assert(self@ =~= old(self)@ + mem_operand_disp32_bytes(r, base, offset));
        }
    }

    fn memory_modrm_2(&mut self, r: u8, base: u8, index: u8, scale: i32, offset: i32)
        requires
            index != NO_INDEX,
            0 <= scale <= 3,
        ensures
            final(self)@ == old(self)@ + mem_operand_sib_bytes(r, base, index, scale as u8, offset),
    {
        if offset == 0 && base != NO_BASE && base != NO_BASE2 {
            self.put_modrm_sib(0, r, base, index, scale as u8);
        } else if can_sign_extend(offset) {
            self.put_modrm_sib(1, r, base, index, scale as u8);
            self.buffer.put_byte(disp8_of(offset));
        } else {
            self.put_modrm_sib(2, r, base, index, scale as u8);
            self.buffer.put_int(offset);
        }
        proof {
            assert(self@ =~= old(self)@ + mem_operand_sib_bytes(
                r,
                base,
                index,
                scale as u8,
                offset,
            ));
        }
    }

    /// Emits a REX prefix with the given width bit and extension sources.
    pub fn emit_rex(&mut self, w: u8, r: u8, x: u8, b: u8)
        requires
            w <= 1,
            r <= 15,
            x <= 15,
            b <= 15,
        ensures
            final(self)@ == old(self)@ + seq![rex_byte(w, r, x, b)],
    {
        self.buffer.put_byte(PRE_REX | (w << 3) | ((r >> 3) << 2) | ((x >> 3) << 1) | (b >> 3));
    }

    /// Emits a REX prefix with the 64-bit-operand width bit set.
    pub fn emit_rexw(&mut self, r: u8, x: u8, b: u8)
        requires
            r <= 15,
            x <= 15,
            b <= 15,
        ensures
            final(self)@ == old(self)@ + seq![rex_byte(1, r, x, b)],
    {
        self.emit_rex(1, r, x, b);
    }

    /// Emits a REX prefix exactly when the condition holds.
    pub fn emit_rex_if(&mut self, c: bool, r: u8, x: u8, b: u8)
        requires
            r <= 15,
            x <= 15,
            b <= 15,
        ensures
            final(self)@ == old(self)@ + rex_if(c, r, x, b),
    {
        if c {
            self.emit_rex(0, r, x, b);
        }
        proof {
            assert(self@ =~= old(self)@ + rex_if(c, r, x, b));
        }
    }

    /// Emits a REX prefix exactly when an extended register is involved.
    pub fn emit_rex_if_needed(&mut self, r: u8, x: u8, b: u8)
        requires
            r <= 15,
            x <= 15,
            b <= 15,
        ensures
            final(self)@ == old(self)@ + rex_if(rex_needed(r, x, b), r, x, b),
    {
        self.emit_rex_if(
            Self::reg_requires_rex(r) || Self::reg_requires_rex(x) || Self::reg_requires_rex(b),
            r,
            x,
            b,
        );
    }

    /// The number of bytes emitted so far.
    pub fn code_size(&self) -> (r: usize)
        ensures
            r == self@.len(),
    {
        self.buffer.code_size()
    }

    /// A read view of the emitted bytes.
    pub fn data(&self) -> (r: &[u8])
        ensures
            r@ == self@,
    {
        self.buffer.data()
    }

    /// A read-write view of the emitted bytes, for backpatching in place.
    pub fn data_mut(&mut self) -> (r: &mut [u8])
        ensures
            r@ == old(self)@,
            final(r)@ == final(self)@,
    {
        self.buffer.data_mut()
    }

    /// Overwrites one already-emitted byte in place.
    pub fn set_byte(&mut self, i: usize, value: u8)
        requires
            i < old(self)@.len(),
        ensures
            final(self)@ == old(self)@.update(i as int, value),
    {
        self.buffer.set_byte(i, value);
    }

    /// Reads one already-emitted byte.
    pub fn byte_at(&self, i: usize) -> (r: u8)
        requires
            i < self@.len(),
        ensures
            r == self@[i as int],
    {
        self.buffer.byte_at(i)
    }

    /// Emits a placeholder 32-bit relative immediate and returns a label
    /// naming the position just past it.
    pub fn imm_rel(&mut self) -> (r: AssemblerLabel)
        requires
            old(self)@.len() + 4 <= u32::MAX,
        ensures
            final(self)@ == old(self)@ + le_bytes4_i32(0),
            r.offset == final(self)@.len(),
    {
        self.buffer.put_int(0);
        self.label()
    }

    /// Emits a 64-bit immediate, little-endian.
    pub fn imm64(&mut self, imm: i64)
        ensures
            final(self)@ == old(self)@ + le_bytes8_i64(imm),
    {
        let v: u64 = if imm >= 0 {
            imm as u64
        } else {
            ((imm as i128) + 0x10000000000000000) as u64
        };
        self.buffer.put_long(v);
    }

    /// Emits a 32-bit immediate, little-endian.
    pub fn imm32(&mut self, imm: i32)
        ensures
            final(self)@ == old(self)@ + le_bytes4_i32(imm),
    {
        self.buffer.put_int(imm);
    }

    /// Emits a 16-bit immediate, little-endian.
    pub fn imm16(&mut self, imm: i16)
        ensures
            final(self)@ == old(self)@ + le_bytes2(
                (if imm >= 0 {
                    imm as int
                } else {
                    imm + 0x10000
                }) as u16,
            ),
    {
        let v: u16 = if imm >= 0 {
            imm as u16
        } else {
            ((imm as i32) + 0x10000) as u16
        };
        self.buffer.put_short(v);
    }

    /// Emits an 8-bit immediate.
    pub fn imm8(&mut self, imm: i8)
        ensures
            final(self)@ == old(self)@ + seq![byte_of_i32(imm as i32)],
    {
        let v: u8 = if imm >= 0 {
            imm as u8
        } else {
            ((imm as i32) + 256) as u8
        };
        self.buffer.put_byte(v);
    }

    /// A label naming the current end of the buffer.
    pub fn label(&self) -> (r: AssemblerLabel)
        requires
            self@.len() <= u32::MAX,
        ensures
            r.offset == self@.len(),
    {
        self.buffer.label()
    }

    /// Emits a prefix byte.
    pub fn prefix(&mut self, x: u8)
        ensures
            final(self)@ == old(self)@ + seq![x],
    {
        self.buffer.put_byte(x);
    }

    /// Emits a bare one-byte opcode.
    pub fn one_byte_op_1(&mut self, op: u8)
        ensures
            final(self)@ == old(self)@ + seq![op],
    {
        self.buffer.put_byte(op);
    }

    /// Emits a one-byte opcode with the register packed into its low bits.
    pub fn one_byte_op_2(&mut self, op: u8, reg: u8)
        requires
            reg <= 15,
            op + 7 <= 255,
        ensures
            final(self)@ == old(self)@ + rex_if(rex_needed(0, 0, reg), 0, 0, reg) + seq![
                (op + (reg & 7)) as u8,
            ],
    {
        self.emit_rex_if_needed(0, 0, reg);
        assert(reg & 7 <= 7) by (bit_vector);
        self.buffer.put_byte(op + (reg & 7));
        proof {
            assert(self@ =~= old(self)@ + rex_if(rex_needed(0, 0, reg), 0, 0, reg) + seq![
                (op + (reg & 7)) as u8,
            ]);
        }
    }

    /// Emits a one-byte opcode with a base-plus-displacement operand.
    pub fn one_byte_op_3(&mut self, op: u8, reg: u8, base: u8, offset: i32)
        requires
            reg <= 15,
            base <= 15,
        ensures
            final(self)@ == old(self)@ + rex_if(rex_needed(reg, 0, base), reg, 0, base) + seq![op]
                + mem_operand_bytes(reg, base, offset),
    {
        self.emit_rex_if_needed(reg, 0, base);
        self.buffer.put_byte(op);
        self.memory_modrm_1(reg, base, offset);
        proof {
            assert(self@ =~= old(self)@ + rex_if(rex_needed(reg, 0, base), reg, 0, base)
                + seq![op] + mem_operand_bytes(reg, base, offset));
        }
    }

    /// Emits a one-byte opcode with a forced 4-byte-displacement operand.
    pub fn one_byte_op_disp32(&mut self, op: u8, reg: u8, base: u8, offset: i32)
        requires
            reg <= 15,
            base <= 15,
        ensures
            final(self)@ == old(self)@ + rex_if(rex_needed(reg, 0, base), reg, 0, base) + seq![op]
                + mem_operand_disp32_bytes(reg, base, offset),
    {
        self.emit_rex_if_needed(reg, 0, base);
        self.buffer.put_byte(op);
        self.memory_modrm_disp32(reg, base, offset);
        proof {
            assert(self@ =~= old(self)@ + rex_if(rex_needed(reg, 0, base), reg, 0, base)
                + seq![op] + mem_operand_disp32_bytes(reg, base, offset));
        }
    }

    /// Emits a one-byte opcode with a forced 1-byte-displacement operand.
    pub fn one_byte_op_disp8(&mut self, op: u8, reg: u8, base: u8, offset: i32)
        requires
            reg <= 15,
            base <= 15,
            -128 <= offset <= 127,
        ensures
            final(self)@ == old(self)@ + rex_if(rex_needed(reg, 0, base), reg, 0, base) + seq![op]
                + mem_operand_disp8_bytes(reg, base, offset),
    {
        self.emit_rex_if_needed(reg, 0, base);
        self.buffer.put_byte(op);
        self.memory_modrm_disp8(reg, base, offset);
        proof {
            assert(self@ =~= old(self)@ + rex_if(rex_needed(reg, 0, base), reg, 0, base)
                + seq![op] + mem_operand_disp8_bytes(reg, base, offset));
        }
    }

    /// Emits a one-byte opcode with a base-plus-scaled-index operand.
    pub fn one_byte_op_4(&mut self, op: u8, reg: u8, base: u8, index: u8, scale: i32, offset: i32)
        requires
            reg <= 15,
            base <= 15,
            index <= 15,
            index != NO_INDEX,
            0 <= scale <= 3,
        ensures
            final(self)@ == old(self)@ + rex_if(rex_needed(reg, index, base), reg, index, base)
                + seq![op] + mem_operand_sib_bytes(reg, base, index, scale as u8, offset),
    {
        self.emit_rex_if_needed(reg, index, base);
        self.buffer.put_byte(op);
        self.memory_modrm_2(reg, base, index, scale, offset);
        proof {
            assert(self@ =~= old(self)@ + rex_if(rex_needed(reg, index, base), reg, index, base)
                + seq![op] + mem_operand_sib_bytes(reg, base, index, scale as u8, offset));
        }
    }

    /// Emits a one-byte opcode with a register-register operand.
    pub fn one_byte_op_6(&mut self, op: u8, reg: u8, rm: u8)
        requires
            reg <= 15,
            rm <= 15,
        ensures
            final(self)@ == old(self)@ + rex_if(rex_needed(reg, 0, rm), reg, 0, rm) + seq![
                op,
                modrm_byte(3, reg, rm),
            ],
    {
        self.emit_rex_if_needed(reg, 0, rm);
        self.buffer.put_byte(op);
        self.register_modrm(reg, rm);
        proof {
            assert(self@ =~= old(self)@ + rex_if(rex_needed(reg, 0, rm), reg, 0, rm) + seq![
                op,
                modrm_byte(3, reg, rm),
            ]);
        }
    }

    /// Emits an 8-bit-operand one-byte opcode with a group number and a
    /// register operand.
    pub fn one_byte_op8_1(&mut self, op: u8, g: u8, rm: u8)
        requires
            rm <= 15,
        ensures
            final(self)@ == old(self)@ + rex_if(byte_reg_needs_rex(rm), 0, 0, rm) + seq![
                op,
                modrm_byte(3, g, rm),
            ],
    {
        self.emit_rex_if(Self::byte_reg_requires_rex(rm), 0, 0, rm);
        self.buffer.put_byte(op);
        self.register_modrm(g, rm);
        proof {
            assert(self@ =~= old(self)@ + rex_if(byte_reg_needs_rex(rm), 0, 0, rm) + seq![
                op,
                modrm_byte(3, g, rm),
            ]);
        }
    }

    /// Emits an 8-bit-operand one-byte opcode with a register-register
    /// operand.
    pub fn one_byte_op8_2(&mut self, op: u8, reg: u8, rm: u8)
        requires
            reg <= 15,
            rm <= 15,
        ensures
            final(self)@ == old(self)@ + rex_if(
                byte_reg_needs_rex(reg) || byte_reg_needs_rex(rm),
                reg,
                0,
                rm,
            ) + seq![op, modrm_byte(3, reg, rm)],
    {
        self.emit_rex_if(
            Self::byte_reg_requires_rex(reg) || Self::byte_reg_requires_rex(rm),
            reg,
            0,
            rm,
        );
        self.buffer.put_byte(op);
        self.register_modrm(reg, rm);
        proof {
            assert(self@ =~= old(self)@ + rex_if(
                byte_reg_needs_rex(reg) || byte_reg_needs_rex(rm),
                reg,
                0,
                rm,
            ) + seq![op, modrm_byte(3, reg, rm)]);
        }
    }

    /// Emits an 8-bit-operand one-byte opcode with a base-plus-scaled-index
    /// operand.
    pub fn one_byte_op8_3(&mut self, op: u8, reg: u8, base: u8, index: u8, scale: i32, offset: i32)
        requires
            reg <= 15,
            base <= 15,
            index <= 15,
            index != NO_INDEX,
            0 <= scale <= 3,
        ensures
            final(self)@ == old(self)@ + rex_if(
                byte_reg_needs_rex(reg) || byte_reg_needs_rex(base) || byte_reg_needs_rex(index),
                reg,
                index,
                base,
            ) + seq![op] + mem_operand_sib_bytes(reg, base, index, scale as u8, offset),
    {
        self.emit_rex_if(
            Self::byte_reg_requires_rex(reg) || Self::byte_reg_requires_rex(base)
                || Self::byte_reg_requires_rex(index),
            reg,
            index,
            base,
        );
        self.buffer.put_byte(op);
        self.memory_modrm_2(reg, base, index, scale, offset);
        proof {
            assert(self@ =~= old(self)@ + rex_if(
                byte_reg_needs_rex(reg) || byte_reg_needs_rex(base) || byte_reg_needs_rex(index),
                reg,
                index,
                base,
            ) + seq![op] + mem_operand_sib_bytes(reg, base, index, scale as u8, offset));
        }
    }

    /// Emits an 8-bit-operand two-byte opcode with a register-register
    /// operand.
    pub fn two_byte_op8_1(&mut self, op: u8, reg: u8, rm: u8)
        requires
            reg <= 15,
            rm <= 15,
        ensures
            final(self)@ == old(self)@ + rex_if(
                byte_reg_needs_rex(reg) || byte_reg_needs_rex(rm),
                reg,
                0,
                rm,
            ) + seq![OP_2BYTE_ESCAPE, op, modrm_byte(3, reg, rm)],
    {
        self.emit_rex_if(
            Self::byte_reg_requires_rex(reg) || Self::byte_reg_requires_rex(rm),
            reg,
            0,
            rm,
        );
        self.buffer.put_byte(OP_2BYTE_ESCAPE);
        self.buffer.put_byte(op);
        self.register_modrm(reg, rm);
        proof {
            assert(self@ =~= old(self)@ + rex_if(
                byte_reg_needs_rex(reg) || byte_reg_needs_rex(rm),
                reg,
                0,
                rm,
            ) + seq![OP_2BYTE_ESCAPE, op, modrm_byte(3, reg, rm)]);
        }
    }

    /// Emits an 8-bit-operand two-byte opcode with a group number and a
    /// register operand.
    pub fn two_byte_op8_2(&mut self, op: u8, g: u8, rm: u8)
        requires
            rm <= 15,
        ensures
            final(self)@ == old(self)@ + rex_if(byte_reg_needs_rex(rm), 0, 0, rm) + seq![
                OP_2BYTE_ESCAPE,
                op,
                modrm_byte(3, g, rm),
            ],
    {
        self.emit_rex_if(Self::byte_reg_requires_rex(rm), 0, 0, rm);
        self.buffer.put_byte(OP_2BYTE_ESCAPE);
        self.buffer.put_byte(op);
        self.register_modrm(g, rm);
        proof {
            assert(self@ =~= old(self)@ + rex_if(byte_reg_needs_rex(rm), 0, 0, rm) + seq![
                OP_2BYTE_ESCAPE,
                op,
                modrm_byte(3, g, rm),
            ]);
        }
    }

    /// Emits a 64-bit-operand bare opcode behind its REX.W prefix.
    pub fn one_byte_op64(&mut self, op: u8)
        ensures
            final(self)@ == old(self)@ + seq![rex_byte(1, 0, 0, 0), op],
    {
        self.emit_rexw(0, 0, 0);
        self.buffer.put_byte(op);
        proof {
            assert(self@ =~= old(self)@ + seq![rex_byte(1, 0, 0, 0), op]);
        }
    }

    /// Emits a 64-bit-operand opcode with the register packed into its low
    /// bits, behind its REX.W prefix.
    pub fn one_byte_op64_1(&mut self, op: u8, r: u8)
        requires
            r <= 15,
            op + 7 <= 255,
        ensures
            final(self)@ == old(self)@ + seq![rex_byte(1, 0, 0, r), (op + (r & 7)) as u8],
    {
        self.emit_rexw(0, 0, r);
        assert(r & 7 <= 7) by (bit_vector);
        self.buffer.put_byte(op + (r & 7));
        proof {
            assert(self@ =~= old(self)@ + seq![rex_byte(1, 0, 0, r), (op + (r & 7)) as u8]);
        }
    }

    /// Emits a 64-bit-operand opcode with a register-register operand,
    /// behind its REX.W prefix.
    pub fn one_byte_op64_2(&mut self, op: u8, r: u8, rm: u8)
        requires
            r <= 15,
            rm <= 15,
        ensures
            final(self)@ == old(self)@ + seq![rex_byte(1, r, 0, rm), op, modrm_byte(3, r, rm)],
    {
        self.emit_rexw(r, 0, rm);
        self.buffer.put_byte(op);
        self.register_modrm(r, rm);
        proof {
            assert(self@ =~= old(self)@ + seq![rex_byte(1, r, 0, rm), op, modrm_byte(3, r, rm)]);
        }
    }

    /// Emits a 64-bit-operand opcode with a base-plus-displacement operand,
    /// behind its REX.W prefix.
    pub fn one_byte_op64_3(&mut self, op: u8, reg: u8, base: u8, offset: i32)
        requires
            reg <= 15,
            base <= 15,
        ensures
            final(self)@ == old(self)@ + seq![rex_byte(1, reg, 0, base), op] + mem_operand_bytes(
                reg,
                base,
                offset,
            ),
    {
        self.emit_rexw(reg, 0, base);
        self.buffer.put_byte(op);
        self.memory_modrm_1(reg, base, offset);
        proof {
            assert(self@ =~= old(self)@ + seq![rex_byte(1, reg, 0, base), op] + mem_operand_bytes(
                reg,
                base,
                offset,
            ));
        }
    }

    /// Emits a 64-bit-operand opcode with a forced 4-byte-displacement
    /// operand, behind its REX.W prefix.
    pub fn one_byte_op64_disp32(&mut self, op: u8, reg: u8, base: u8, offset: i32)
        requires
            reg <= 15,
            base <= 15,
        ensures
            final(self)@ == old(self)@ + seq![rex_byte(1, reg, 0, base), op]
                + mem_operand_disp32_bytes(reg, base, offset),
    {
        self.emit_rexw(reg, 0, base);
        self.buffer.put_byte(op);
        self.memory_modrm_disp32(reg, base, offset);
        proof {
            assert(self@ =~= old(self)@ + seq![rex_byte(1, reg, 0, base), op]
                + mem_operand_disp32_bytes(reg, base, offset));
        }
    }

    /// Emits a 64-bit-operand opcode with a forced 1-byte-displacement
    /// operand, behind its REX.W prefix.
    pub fn one_byte_op64_disp8(&mut self, op: u8, reg: u8, base: u8, offset: i32)
        requires
            reg <= 15,
            base <= 15,
            -128 <= offset <= 127,
        ensures
            final(self)@ == old(self)@ + seq![rex_byte(1, reg, 0, base), op]
                + mem_operand_disp8_bytes(reg, base, offset),
    {
        self.emit_rexw(reg, 0, base);
        self.buffer.put_byte(op);
        self.memory_modrm_disp8(reg, base, offset);
        proof {
            assert(self@ =~= old(self)@ + seq![rex_byte(1, reg, 0, base), op]
                + mem_operand_disp8_bytes(reg, base, offset));
        }
    }

    /// Emits a 64-bit-operand opcode with a base-plus-scaled-index operand,
    /// behind its REX.W prefix.
    pub fn one_byte_op64_4(
        &mut self,
        op: u8,
        reg: u8,
        base: u8,
        index: u8,
        scale: i32,
        offset: i32,
    )
        requires
            reg <= 15,
            base <= 15,
            index <= 15,
            index != NO_INDEX,
            0 <= scale <= 3,
        ensures
            final(self)@ == old(self)@ + seq![rex_byte(1, reg, index, base), op]
                + mem_operand_sib_bytes(reg, base, index, scale as u8, offset),
    {
        self.emit_rexw(reg, index, base);
        self.buffer.put_byte(op);
        self.memory_modrm_2(reg, base, index, scale, offset);
        proof {
            assert(self@ =~= old(self)@ + seq![rex_byte(1, reg, index, base), op]
                + mem_operand_sib_bytes(reg, base, index, scale as u8, offset));
        }
    }

    /// Emits a 64-bit-operand two-byte opcode with a register-register
    /// operand, behind its REX.W prefix.
    pub fn two_byte_op64(&mut self, op: u8, reg: u8, rm: u8)
        requires
            reg <= 15,
            rm <= 15,
        ensures
            final(self)@ == old(self)@ + seq![
                rex_byte(1, reg, 0, rm),
                OP_2BYTE_ESCAPE,
                op,
                modrm_byte(3, reg, rm),
            ],
    {
        self.emit_rexw(reg, 0, rm);
        self.buffer.put_byte(OP_2BYTE_ESCAPE);
        self.buffer.put_byte(op);
        self.register_modrm(reg, rm);
        proof {
            assert(self@ =~= old(self)@ + seq![
                rex_byte(1, reg, 0, rm),
                OP_2BYTE_ESCAPE,
                op,
                modrm_byte(3, reg, rm),
            ]);
        }
    }
}

/// `n` copies of the same filler byte.
pub open spec fn filler(n: nat, b: u8) -> Seq<u8> {
    Seq::new(n, |i: int| b)
}

/// The offset a padded label lands on: the end of the buffer, pushed past
/// the tail of the most recent watchpoint reservation.
pub open spec fn padded_label_offset(len: nat, tail: nat) -> nat {
    if len >= tail {
        len
    } else {
        tail
    }
}

/// `s` with `bytes.len()` bytes overwritten in place at `at`.
pub open spec fn spliced(s: Seq<u8>, at: int, bytes: Seq<u8>) -> Seq<u8>
    recommends
        0 <= at,
        at + bytes.len() <= s.len(),
{
    s.subrange(0, at) + bytes + s.subrange(at + bytes.len(), s.len() as int)
}

/// The mnemonic-level emitter: owns the formatter and tracks the most
/// recently reserved watchpoint region.
pub struct X86Assembler {
    pub formatter: X86InsFormatter,
    idx_of_last_watchpoint: u32,
    idx_of_tail_last_watchpoint: u32,
}

impl View for X86Assembler {
    type V = Seq<u8>;

    closed spec fn view(&self) -> Seq<u8> {
        self.formatter@
    }
}

/// Whether the watchpoint bookkeeping is untouched between two states.
pub open spec fn keeps_watchpoints(pre: X86Assembler, post: X86Assembler) -> bool {
    post.last_watchpoint() == pre.last_watchpoint() && post.watchpoint_tail()
        == pre.watchpoint_tail()
}

impl X86Assembler {
    /// The start of the most recently reserved watchpoint region.
    pub closed spec fn last_watchpoint(&self) -> u32 {
        self.idx_of_last_watchpoint
    }

    /// The end of the most recently reserved watchpoint region; labels
    /// never land before it.
    pub closed spec fn watchpoint_tail(&self) -> u32 {
        self.idx_of_tail_last_watchpoint
    }

    pub fn new() -> (r: Self)
        ensures
            r@ == Seq::<u8>::empty(),
            r.last_watchpoint() == 0,
            r.watchpoint_tail() == 0,
    {
        X86Assembler {
            formatter: X86InsFormatter::new(),
            idx_of_last_watchpoint: 0,
            idx_of_tail_last_watchpoint: 0,
        }
    }

    /// A read view of the emitted bytes.
    pub fn code(&self) -> (r: &[u8])
        ensures
            r@ == self@,
    {
        self.formatter.data()
    }

    /// A label at the current buffer end, ignoring any pending watchpoint
    /// reservation.
    pub fn label_ignoring_watchpoints(&self) -> (r: AssemblerLabel)
        requires
            self@.len() <= u32::MAX,
        ensures
            r.offset == self@.len(),
    {
        self.formatter.label()
    }

    /// A label for new code: pads with one-byte no-ops until the offset is
    /// at or past the tail of any pending watchpoint reservation, so a
    /// label is never taken from inside a slot reserved for patching.
    pub fn label(&mut self) -> (r: AssemblerLabel)
        requires
            old(self)@.len() <= u32::MAX,
        ensures
            r.offset == padded_label_offset(
                old(self)@.len(),
                old(self).watchpoint_tail() as nat,
            ),
            final(self)@ == old(self)@ + filler((r.offset - old(self)@.len()) as nat, OP_NOP),
            final(self)@.len() == r.offset,
            keeps_watchpoints(*old(self), *final(self)),
    {
        let mut r = self.formatter.label();
        while r.offset < self.idx_of_tail_last_watchpoint
            invariant
                old(self)@.len() <= self@.len(),
                self@.len() <= padded_label_offset(
                    old(self)@.len(),
                    old(self).watchpoint_tail() as nat,
                ),
                r.offset == self@.len(),
                self@ == old(self)@ + filler((self@.len() - old(self)@.len()) as nat, OP_NOP),
                self.idx_of_tail_last_watchpoint == old(self).watchpoint_tail(),
                self.idx_of_last_watchpoint == old(self).last_watchpoint(),
            decreases self.idx_of_tail_last_watchpoint as int - r.offset as int,
        {
            self.formatter.one_byte_op_1(OP_NOP);
            proof {
                assert(self@ =~= old(self)@ + filler(
                    (self@.len() - old(self)@.len()) as nat,
                    OP_NOP,
                ));
            }
            r = self.formatter.label();
        }
        r
    }

    /// Reserves a five-byte patchable region at the current position:
    /// returns its start and records its end, which later labels respect.
    /// Reserving twice at the same spot reuses the region.
    pub fn label_for_watchpoit(&mut self) -> (r: AssemblerLabel)
        requires
            old(self)@.len() + 5 <= u32::MAX,
            old(self).watchpoint_tail() + 5 <= u32::MAX,
        ensures
            r.offset == (if old(self)@.len() == old(self).last_watchpoint() {
                old(self)@.len() as nat
            } else {
                padded_label_offset(old(self)@.len(), old(self).watchpoint_tail() as nat)
            }),
            final(self)@ == old(self)@ + filler((r.offset - old(self)@.len()) as nat, OP_NOP),
            final(self)@.len() == r.offset,
            final(self).last_watchpoint() == r.offset,
            final(self).watchpoint_tail() == r.offset + 5,
    {
        let mut result = self.formatter.label();
        if result.offset != self.idx_of_last_watchpoint {
            result = self.label();
        }
        self.idx_of_last_watchpoint = result.offset;
        self.idx_of_tail_last_watchpoint = result.offset + 5;
        result
    }

    /// Emits one-byte trap instructions until the buffer size is a multiple
    /// of `alignment`, then returns a label there.
    pub fn align(&mut self, alignment: usize) -> (r: AssemblerLabel)
        requires
            alignment >= 1,
            old(self)@.len() + alignment <= u32::MAX,
        ensures
            ({
                let aligned = crate::mem::round_up(old(self)@.len() as int, alignment as int);
                r.offset == padded_label_offset(
                    aligned as nat,
                    old(self).watchpoint_tail() as nat,
                ) && final(self)@ == old(self)@ + filler(
                    (aligned - old(self)@.len()) as nat,
                    OP_HLT,
                ) + filler((r.offset - aligned) as nat, OP_NOP) && final(self)@.len() == r.offset
            }),
            keeps_watchpoints(*old(self), *final(self)),
    {
        let len = self.formatter.code_size();
        let target = crate::mem::align_usize(len, alignment);
        let mut pad = target - len;
        while pad > 0
            invariant
                old(self)@.len() <= self@.len(),
                self@.len() + pad == target,
                target == crate::mem::round_up(old(self)@.len() as int, alignment as int),
                target <= u32::MAX,
                self@ == old(self)@ + filler((self@.len() - old(self)@.len()) as nat, OP_HLT),
                self.idx_of_tail_last_watchpoint == old(self).watchpoint_tail(),
                self.idx_of_last_watchpoint == old(self).last_watchpoint(),
            decreases pad,
        {
            self.formatter.one_byte_op_1(OP_HLT);
            proof {
                assert(self@ =~= old(self)@ + filler(
                    (self@.len() - old(self)@.len()) as nat,
                    OP_HLT,
                ));
            }
            pad -= 1;
        }
        let r = self.label();
        proof {
            let aligned = crate::mem::round_up(old(self)@.len() as int, alignment as int);
            assert(self@ =~= old(self)@ + filler(
                (aligned - old(self)@.len()) as nat,
                OP_HLT,
            ) + filler((r.offset - aligned) as nat, OP_NOP));
        }
        r
    }
}

impl X86Assembler {
    /// Emits a near return.
    pub fn ret(&mut self)
        ensures
            final(self)@ == old(self)@ + seq![OP_RET],
            keeps_watchpoints(*old(self), *final(self)),
    {
        self.formatter.one_byte_op_1(OP_RET);
    }

    /// Emits a breakpoint trap.
    pub fn int3(&mut self)
        ensures
            final(self)@ == old(self)@ + seq![OP_INT3],
            keeps_watchpoints(*old(self), *final(self)),
    {
        self.formatter.one_byte_op_1(OP_INT3);
    }

    /// Emits the branch-not-taken hint prefix.
    pub fn predict_not_taken(&mut self)
        ensures
            final(self)@ == old(self)@ + seq![PRE_PREDICT_BRANCH_NOT_TAKEN],
            keeps_watchpoints(*old(self), *final(self)),
    {
        self.formatter.prefix(PRE_PREDICT_BRANCH_NOT_TAKEN);
    }

    /// Pushes a register.
    pub fn push_r(&mut self, r: u8)
        requires
            r <= 15,
        ensures
            final(self)@ == old(self)@ + rex_if(rex_needed(0, 0, r), 0, 0, r) + seq![(OP_PUSH_EAX + (r & 7)) as u8],
            keeps_watchpoints(*old(self), *final(self)),
    {
        self.formatter.one_byte_op_2(OP_PUSH_EAX, r);
    }

    /// Pops into a register.
    pub fn pop_r(&mut self, r: u8)
        requires
            r <= 15,
        ensures
            final(self)@ == old(self)@ + rex_if(rex_needed(0, 0, r), 0, 0, r) + seq![(OP_POP_EAX + (r & 7)) as u8],
            keeps_watchpoints(*old(self), *final(self)),
    {
        self.formatter.one_byte_op_2(OP_POP_EAX, r);
    }

    /// Pushes a 32-bit immediate.
    pub fn push_i32(&mut self, imm: i32)
        ensures
            final(self)@ == old(self)@ + seq![OP_PUSH_Iz] + le_bytes4_i32(imm),
            keeps_watchpoints(*old(self), *final(self)),
    {
        self.formatter.one_byte_op_1(OP_PUSH_Iz);
        self.formatter.imm32(imm);
    }

    /// Pushes from memory.
    pub fn push_m(&mut self, offset: i32, base: u8)
        requires
            base <= 15,
        ensures
            final(self)@ == old(self)@ + rex_if(rex_needed(GROUP5_OP_PUSH, 0, base), GROUP5_OP_PUSH, 0, base) + seq![OP_GROUP5_Ev]
                + mem_operand_bytes(GROUP5_OP_PUSH, base, offset),
            keeps_watchpoints(*old(self), *final(self)),
    {
        self.formatter.one_byte_op_3(OP_GROUP5_Ev, GROUP5_OP_PUSH, base, offset);
    }

    /// Pops into memory.
    pub fn pop_m(&mut self, offset: i32, base: u8)
        requires
            base <= 15,
        ensures
            final(self)@ == old(self)@ + rex_if(rex_needed(GROUP1A_OP_POP, 0, base), GROUP1A_OP_POP, 0, base) + seq![OP_GROUP1A_Ev]
                + mem_operand_bytes(GROUP1A_OP_POP, base, offset),
            keeps_watchpoints(*old(self), *final(self)),
    {
        self.formatter.one_byte_op_3(OP_GROUP1A_Ev, GROUP1A_OP_POP, base, offset);
    }

    /// Adds a register into a register (32-bit).
    pub fn addl_rr(&mut self, src: u8, dst: u8)
        requires
            src <= 15,
            dst <= 15,
        ensures
            final(self)@ == old(self)@ + rex_if(rex_needed(src, 0, dst), src, 0, dst) + seq![OP_ADD_EvGv, modrm_byte(3, src, dst)],
            keeps_watchpoints(*old(self), *final(self)),
    {
        self.formatter.one_byte_op_6(OP_ADD_EvGv, src, dst);
    }

    /// Adds a memory operand into a register (32-bit).
    pub fn addl_mr(&mut self, offset: i32, base: u8, dst: u8)
        requires
            dst <= 15,
            base <= 15,
        ensures
            final(self)@ == old(self)@ + rex_if(rex_needed(dst, 0, base), dst, 0, base) + seq![OP_ADD_GvEv]
                + mem_operand_bytes(dst, base, offset),
            keeps_watchpoints(*old(self), *final(self)),
    {
        self.formatter.one_byte_op_3(OP_ADD_GvEv, dst, base, offset);
    }

    /// Adds a register into a memory operand (32-bit).
    pub fn addl_rm(&mut self, src: u8, offset: i32, base: u8)
        requires
            src <= 15,
            base <= 15,
        ensures
            final(self)@ == old(self)@ + rex_if(rex_needed(src, 0, base), src, 0, base) + seq![OP_ADD_EvGv]
                + mem_operand_bytes(src, base, offset),
            keeps_watchpoints(*old(self), *final(self)),
    {
        self.formatter.one_byte_op_3(OP_ADD_EvGv, src, base, offset);
    }

    /// Adds a register into a register (64-bit).
    pub fn addq_rr(&mut self, src: u8, dst: u8)
        requires
            src <= 15,
            dst <= 15,
        ensures
            final(self)@ == old(self)@ + seq![rex_byte(1, src, 0, dst), OP_ADD_EvGv, modrm_byte(3, src, dst)],
            keeps_watchpoints(*old(self), *final(self)),
    {
        self.formatter.one_byte_op64_2(OP_ADD_EvGv, src, dst);
    }

    /// Adds a memory operand into a register (64-bit).
    pub fn addq_mr(&mut self, offset: i32, base: u8, dst: u8)
        requires
            dst <= 15,
            base <= 15,
        ensures
            final(self)@ == old(self)@ + seq![rex_byte(1, dst, 0, base), OP_ADD_GvEv] + mem_operand_bytes(dst, base, offset),
            keeps_watchpoints(*old(self), *final(self)),
    {
        self.formatter.one_byte_op64_3(OP_ADD_GvEv, dst, base, offset);
    }

    /// Bitwise-ands a register into a register (32-bit).
    pub fn andl_rr(&mut self, src: u8, dst: u8)
        requires
            src <= 15,
            dst <= 15,
        ensures
            final(self)@ == old(self)@ + rex_if(rex_needed(src, 0, dst), src, 0, dst) + seq![OP_AND_EvGv, modrm_byte(3, src, dst)],
            keeps_watchpoints(*old(self), *final(self)),
    {
        self.formatter.one_byte_op_6(OP_AND_EvGv, src, dst);
    }

    /// Bitwise-ands a memory operand into a register (32-bit).
    pub fn andl_mr(&mut self, offset: i32, base: u8, dst: u8)
        requires
            dst <= 15,
            base <= 15,
        ensures
            final(self)@ == old(self)@ + rex_if(rex_needed(dst, 0, base), dst, 0, base) + seq![OP_AND_GvEv]
                + mem_operand_bytes(dst, base, offset),
            keeps_watchpoints(*old(self), *final(self)),
    {
        self.formatter.one_byte_op_3(OP_AND_GvEv, dst, base, offset);
    }

    /// Bitwise-ands a register into a memory operand (32-bit).
    pub fn andl_rm(&mut self, src: u8, offset: i32, base: u8)
        requires
            src <= 15,
            base <= 15,
        ensures
            final(self)@ == old(self)@ + rex_if(rex_needed(src, 0, base), src, 0, base) + seq![OP_AND_EvGv]
                + mem_operand_bytes(src, base, offset),
            keeps_watchpoints(*old(self), *final(self)),
    {
        self.formatter.one_byte_op_3(OP_AND_EvGv, src, base, offset);
    }

    /// Bitwise-ands a register into a register (64-bit).
    pub fn andq_rr(&mut self, src: u8, dst: u8)
        requires
            src <= 15,
            dst <= 15,
        ensures
            final(self)@ == old(self)@ + seq![rex_byte(1, src, 0, dst), OP_AND_EvGv, modrm_byte(3, src, dst)],
            keeps_watchpoints(*old(self), *final(self)),
    {
        self.formatter.one_byte_op64_2(OP_AND_EvGv, src, dst);
    }

    /// Negates a register (32-bit).
    pub fn negl_r(&mut self, r: u8)
        requires
            GROUP3_OP_NEG <= 15,
            r <= 15,
        ensures
            final(self)@ == old(self)@ + rex_if(rex_needed(GROUP3_OP_NEG, 0, r), GROUP3_OP_NEG, 0, r) + seq![OP_GROUP3_Ev, modrm_byte(3, GROUP3_OP_NEG, r)],
            keeps_watchpoints(*old(self), *final(self)),
    {
        self.formatter.one_byte_op_6(OP_GROUP3_Ev, GROUP3_OP_NEG, r);
    }

    /// Negates a register (64-bit).
    pub fn negq_r(&mut self, r: u8)
        requires
            GROUP3_OP_NEG <= 15,
            r <= 15,
        ensures
            final(self)@ == old(self)@ + seq![rex_byte(1, GROUP3_OP_NEG, 0, r), OP_GROUP3_Ev, modrm_byte(3, GROUP3_OP_NEG, r)],
            keeps_watchpoints(*old(self), *final(self)),
    {
        self.formatter.one_byte_op64_2(OP_GROUP3_Ev, GROUP3_OP_NEG, r);
    }

    /// Bitwise-complements a register (32-bit).
    pub fn notl_r(&mut self, r: u8)
        requires
            GROUP3_OP_NOT <= 15,
            r <= 15,
        ensures
            final(self)@ == old(self)@ + rex_if(rex_needed(GROUP3_OP_NOT, 0, r), GROUP3_OP_NOT, 0, r) + seq![OP_GROUP3_Ev, modrm_byte(3, GROUP3_OP_NOT, r)],
            keeps_watchpoints(*old(self), *final(self)),
    {
        self.formatter.one_byte_op_6(OP_GROUP3_Ev, GROUP3_OP_NOT, r);
    }

    /// Bitwise-ors a register into a register (32-bit).
    pub fn orl_rr(&mut self, src: u8, dst: u8)
        requires
            src <= 15,
            dst <= 15,
        ensures
            final(self)@ == old(self)@ + rex_if(rex_needed(src, 0, dst), src, 0, dst) + seq![OP_OR_EvGv, modrm_byte(3, src, dst)],
            keeps_watchpoints(*old(self), *final(self)),
    {
        self.formatter.one_byte_op_6(OP_OR_EvGv, src, dst);
    }

    /// Bitwise-ors a register into a register (64-bit).
    pub fn oqr_rr(&mut self, src: u8, dst: u8)
        requires
            src <= 15,
            dst <= 15,
        ensures
            final(self)@ == old(self)@ + seq![rex_byte(1, src, 0, dst), OP_OR_EvGv, modrm_byte(3, src, dst)],
            keeps_watchpoints(*old(self), *final(self)),
    {
        self.formatter.one_byte_op64_2(OP_OR_EvGv, src, dst);
    }

    /// Subtracts a register from a register (32-bit).
    pub fn subl_rr(&mut self, src: u8, dst: u8)
        requires
            src <= 15,
            dst <= 15,
        ensures
            final(self)@ == old(self)@ + rex_if(rex_needed(src, 0, dst), src, 0, dst) + seq![OP_SUB_EvGv, modrm_byte(3, src, dst)],
            keeps_watchpoints(*old(self), *final(self)),
    {
        self.formatter.one_byte_op_6(OP_SUB_EvGv, src, dst);
    }

    /// Moves a register into a register (64-bit).
    pub fn movq_rr(&mut self, src: u8, dst: u8)
        requires
            src <= 15,
            dst <= 15,
        ensures
            final(self)@ == old(self)@ + seq![rex_byte(1, src, 0, dst), OP_MOV_EvGv, modrm_byte(3, src, dst)],
            keeps_watchpoints(*old(self), *final(self)),
    {
        self.formatter.one_byte_op64_2(OP_MOV_EvGv, src, dst);
    }

    /// Bitwise-ors a 32-bit immediate into a register (32-bit).
    pub fn orl_ir(&mut self, imm: i32, dst: u8)
        requires
            dst <= 15,
        ensures
            final(self)@ == old(self)@ + rex_if(rex_needed(GROUP1_OP_OR, 0, dst), GROUP1_OP_OR, 0, dst) + seq![
                OP_GROUP1_EvIz,
                modrm_byte(3, GROUP1_OP_OR, dst),
            ] + le_bytes4_i32(imm),
            keeps_watchpoints(*old(self), *final(self)),
    {
        self.formatter.one_byte_op_6(OP_GROUP1_EvIz, GROUP1_OP_OR, dst);
        self.formatter.imm32(imm);
    }

    /// Bitwise-ors a 32-bit immediate into a register (64-bit).
    pub fn orq_ir(&mut self, imm: i32, dst: u8)
        requires
            dst <= 15,
        ensures
            final(self)@ == old(self)@ + seq![
                rex_byte(1, GROUP1_OP_OR, 0, dst),
                OP_GROUP1_EvIz,
                modrm_byte(3, GROUP1_OP_OR, dst),
            ] + le_bytes4_i32(imm),
            keeps_watchpoints(*old(self), *final(self)),
    {
        self.formatter.one_byte_op64_2(OP_GROUP1_EvIz, GROUP1_OP_OR, dst);
        self.formatter.imm32(imm);
    }

    /// Bitwise-ands a 32-bit immediate into a register (64-bit).
    pub fn andq_ir(&mut self, imm: i32, dst: u8)
        requires
            dst <= 15,
        ensures
            final(self)@ == old(self)@ + seq![
                rex_byte(1, GROUP1_OP_AND, 0, dst),
                OP_GROUP1_EvIz,
                modrm_byte(3, GROUP1_OP_AND, dst),
            ] + le_bytes4_i32(imm),
            keeps_watchpoints(*old(self), *final(self)),
    {
        self.formatter.one_byte_op64_2(OP_GROUP1_EvIz, GROUP1_OP_AND, dst);
        self.formatter.imm32(imm);
    }

    /// Adds an immediate into a register (32-bit).
    /// Uses the sign-extended 8-bit immediate form when the value fits,
    /// else the 32-bit form.
    pub fn addl_ir(&mut self, imm: i32, dst: u8)
        requires
            dst <= 15,
        ensures
            final(self)@ == (if -128 <= imm <= 127 {
                old(self)@ + rex_if(rex_needed(GROUP1_OP_ADD, 0, dst), GROUP1_OP_ADD, 0, dst) + seq![OP_GROUP1_EvIb, modrm_byte(3, GROUP1_OP_ADD, dst)] + seq![byte_of_i32(imm)]
            } else {
                old(self)@ + rex_if(rex_needed(GROUP1_OP_ADD, 0, dst), GROUP1_OP_ADD, 0, dst) + seq![OP_GROUP1_EvIz, modrm_byte(3, GROUP1_OP_ADD, dst)] + le_bytes4_i32(imm)
            }),
            keeps_watchpoints(*old(self), *final(self)),
    {
        if can_sign_extend(imm) {
            self.formatter.one_byte_op_6(OP_GROUP1_EvIb, GROUP1_OP_ADD, dst);
            self.formatter.imm8(imm as i8);
        } else {
            self.formatter.one_byte_op_6(OP_GROUP1_EvIz, GROUP1_OP_ADD, dst);
            self.formatter.imm32(imm);
        }
    }

    /// Adds an immediate into a register (64-bit).
    /// Uses the sign-extended 8-bit immediate form when the value fits,
    /// else the 32-bit form.
    pub fn addq_ir(&mut self, imm: i32, dst: u8)
        requires
            dst <= 15,
        ensures
            final(self)@ == (if -128 <= imm <= 127 {
                old(self)@ + seq![rex_byte(1, GROUP1_OP_ADD, 0, dst), OP_GROUP1_EvIb, modrm_byte(3, GROUP1_OP_ADD, dst)] + seq![byte_of_i32(imm)]
            } else {
                old(self)@ + seq![rex_byte(1, GROUP1_OP_ADD, 0, dst), OP_GROUP1_EvIz, modrm_byte(3, GROUP1_OP_ADD, dst)] + le_bytes4_i32(imm)
            }),
            keeps_watchpoints(*old(self), *final(self)),
    {
        if can_sign_extend(imm) {
            self.formatter.one_byte_op64_2(OP_GROUP1_EvIb, GROUP1_OP_ADD, dst);
            self.formatter.imm8(imm as i8);
        } else {
            self.formatter.one_byte_op64_2(OP_GROUP1_EvIz, GROUP1_OP_ADD, dst);
            self.formatter.imm32(imm);
        }
    }

    /// Bitwise-ands an immediate into a register (32-bit).
    /// Uses the sign-extended 8-bit immediate form when the value fits,
    /// else the 32-bit form.
    pub fn andl_ir(&mut self, imm: i32, dst: u8)
        requires
            dst <= 15,
        ensures
            final(self)@ == (if -128 <= imm <= 127 {
                old(self)@ + rex_if(rex_needed(GROUP1_OP_AND, 0, dst), GROUP1_OP_AND, 0, dst) + seq![OP_GROUP1_EvIb, modrm_byte(3, GROUP1_OP_AND, dst)] + seq![byte_of_i32(imm)]
            } else {
                old(self)@ + rex_if(rex_needed(GROUP1_OP_AND, 0, dst), GROUP1_OP_AND, 0, dst) + seq![OP_GROUP1_EvIz, modrm_byte(3, GROUP1_OP_AND, dst)] + le_bytes4_i32(imm)
            }),
            keeps_watchpoints(*old(self), *final(self)),
    {
        if can_sign_extend(imm) {
            self.formatter.one_byte_op_6(OP_GROUP1_EvIb, GROUP1_OP_AND, dst);
            self.formatter.imm8(imm as i8);
        } else {
            self.formatter.one_byte_op_6(OP_GROUP1_EvIz, GROUP1_OP_AND, dst);
            self.formatter.imm32(imm);
        }
    }

    /// Subtracts an immediate from a register (32-bit).
    /// Uses the sign-extended 8-bit immediate form when the value fits,
    /// else the 32-bit form.
    pub fn subl_ir(&mut self, imm: i32, dst: u8)
        requires
            dst <= 15,
        ensures
            final(self)@ == (if -128 <= imm <= 127 {
                old(self)@ + rex_if(rex_needed(GROUP1_OP_SUB, 0, dst), GROUP1_OP_SUB, 0, dst) + seq![OP_GROUP1_EvIb, modrm_byte(3, GROUP1_OP_SUB, dst)] + seq![byte_of_i32(imm)]
            } else {
                old(self)@ + rex_if(rex_needed(GROUP1_OP_SUB, 0, dst), GROUP1_OP_SUB, 0, dst) + seq![OP_GROUP1_EvIz, modrm_byte(3, GROUP1_OP_SUB, dst)] + le_bytes4_i32(imm)
            }),
            keeps_watchpoints(*old(self), *final(self)),
    {
        if can_sign_extend(imm) {
            self.formatter.one_byte_op_6(OP_GROUP1_EvIb, GROUP1_OP_SUB, dst);
            self.formatter.imm8(imm as i8);
        } else {
            self.formatter.one_byte_op_6(OP_GROUP1_EvIz, GROUP1_OP_SUB, dst);
            self.formatter.imm32(imm);
        }
    }

    /// Adds an immediate into a memory operand (64-bit).
    /// Uses the sign-extended 8-bit immediate form when the value fits,
    /// else the 32-bit form.
    pub fn addq_im(&mut self, imm: i32, offset: i32, base: u8)
        requires
            base <= 15,
        ensures
            final(self)@ == (if -128 <= imm <= 127 {
                old(self)@ + seq![rex_byte(1, GROUP1_OP_ADD, 0, base), OP_GROUP1_EvIb] + mem_operand_bytes(GROUP1_OP_ADD, base, offset) + seq![byte_of_i32(imm)]
            } else {
                old(self)@ + seq![rex_byte(1, GROUP1_OP_ADD, 0, base), OP_GROUP1_EvIz] + mem_operand_bytes(GROUP1_OP_ADD, base, offset) + le_bytes4_i32(imm)
            }),
            keeps_watchpoints(*old(self), *final(self)),
    {
        if can_sign_extend(imm) {
            self.formatter.one_byte_op64_3(OP_GROUP1_EvIb, GROUP1_OP_ADD, base, offset);
            self.formatter.imm8(imm as i8);
        } else {
            self.formatter.one_byte_op64_3(OP_GROUP1_EvIz, GROUP1_OP_ADD, base, offset);
            self.formatter.imm32(imm);
        }
    }

    /// Bitwise-ands an immediate into a memory operand (32-bit).
    /// Uses the sign-extended 8-bit immediate form when the value fits,
    /// else the 32-bit form.
    pub fn andl_im(&mut self, imm: i32, offset: i32, base: u8)
        requires
            base <= 15,
        ensures
            final(self)@ == (if -128 <= imm <= 127 {
                old(self)@ + rex_if(rex_needed(GROUP1_OP_AND, 0, base), GROUP1_OP_AND, 0, base) + seq![OP_GROUP1_EvIb]
                    + mem_operand_bytes(GROUP1_OP_AND, base, offset) + seq![byte_of_i32(imm)]
            } else {
                old(self)@ + rex_if(rex_needed(GROUP1_OP_AND, 0, base), GROUP1_OP_AND, 0, base) + seq![OP_GROUP1_EvIz]
                    + mem_operand_bytes(GROUP1_OP_AND, base, offset) + le_bytes4_i32(imm)
            }),
            keeps_watchpoints(*old(self), *final(self)),
    {
        if can_sign_extend(imm) {
            self.formatter.one_byte_op_3(OP_GROUP1_EvIb, GROUP1_OP_AND, base, offset);
            self.formatter.imm8(imm as i8);
        } else {
            self.formatter.one_byte_op_3(OP_GROUP1_EvIz, GROUP1_OP_AND, base, offset);
            self.formatter.imm32(imm);
        }
    }

    /// Subtracts an immediate from a memory operand (32-bit).
    /// Uses the sign-extended 8-bit immediate form when the value fits,
    /// else the 32-bit form.
    pub fn subl_im(&mut self, imm: i32, offset: i32, base: u8)
        requires
            base <= 15,
        ensures
            final(self)@ == (if -128 <= imm <= 127 {
                old(self)@ + rex_if(rex_needed(GROUP1_OP_SUB, 0, base), GROUP1_OP_SUB, 0, base) + seq![OP_GROUP1_EvIb]
                    + mem_operand_bytes(GROUP1_OP_SUB, base, offset) + seq![byte_of_i32(imm)]
            } else {
                old(self)@ + rex_if(rex_needed(GROUP1_OP_SUB, 0, base), GROUP1_OP_SUB, 0, base) + seq![OP_GROUP1_EvIz]
                    + mem_operand_bytes(GROUP1_OP_SUB, base, offset) + le_bytes4_i32(imm)
            }),
            keeps_watchpoints(*old(self), *final(self)),
    {
        if can_sign_extend(imm) {
            self.formatter.one_byte_op_3(OP_GROUP1_EvIb, GROUP1_OP_SUB, base, offset);
            self.formatter.imm8(imm as i8);
        } else {
            self.formatter.one_byte_op_3(OP_GROUP1_EvIz, GROUP1_OP_SUB, base, offset);
            self.formatter.imm32(imm);
        }
    }
}


/// The unsigned 32-bit value with the same two's-complement bytes.
fn u32_from_i32(value: i32) -> (r: u32)
    ensures
        r == u32_of_i32(value),
{
    if value >= 0 {
        value as u32
    } else {
        ((value as i64) + 0x100000000) as u32
    }
}

/// The unsigned 64-bit value with the same two's-complement bytes.
fn u64_from_i64(value: i64) -> (r: u64)
    ensures
        r == u64_of_i64(value),
{
    if value >= 0 {
        value as u64
    } else {
        ((value as i128) + 0x10000000000000000) as u64
    }
}

/// Computes a ModRM byte.
fn modrm_value(mode: u8, r: u8, rm: u8) -> (b: u8)
    requires
        mode <= 3,
    ensures
        b == modrm_byte(mode, r, rm),
{
    (mode << 6) | ((r & 7) << 3) | (rm & 7)
}

/// Computes a REX prefix byte.
fn rex_value(w: u8, r: u8, x: u8, b: u8) -> (res: u8)
    requires
        w <= 1,
        r <= 15,
        x <= 15,
        b <= 15,
    ensures
        res == rex_byte(w, r, x, b),
{
    PRE_REX | (w << 3) | ((r >> 3) << 2) | ((x >> 3) << 1) | (b >> 3)
}

/// The value stored by eight little-endian bytes.
pub open spec fn le_decode8(s: Seq<u8>) -> u64
    recommends
        s.len() == 8,
{
    (s[0] + s[1] * 0x100 + s[2] * 0x10000 + s[3] * 0x1000000 + s[4] * 0x100000000 + s[5]
        * 0x10000000000 + s[6] * 0x1000000000000 + s[7] * 0x100000000000000) as u64
}

/// The position of the opcode byte of the instruction starting at `at`:
/// one past a leading REX prefix, else `at` itself.
pub open spec fn opcode_index(s: Seq<u8>, at: int) -> int
    recommends
        0 <= at < s.len(),
{
    if (s[at] & 0xF0) == PRE_REX {
        at + 1
    } else {
        at
    }
}

/// The number of bytes between two labels.
pub fn diff_between_labels(a: AssemblerLabel, b: AssemblerLabel) -> (r: u32)
    requires
        a.offset <= b.offset,
    ensures
        r == b.offset - a.offset,
{
    b.offset - a.offset
}

impl X86Assembler {
    /// Overwrites the 32-bit field that ends at `location` with the given
    /// value, little-endian.
    pub fn set_i32(&mut self, location: usize, value: i32)
        requires
            4 <= location <= old(self)@.len(),
        ensures
            final(self)@ == spliced(old(self)@, location - 4, le_bytes4_i32(value)),
            final(self)@.len() == old(self)@.len(),
            keeps_watchpoints(*old(self), *final(self)),
    {
        let v = u32_from_i32(value);
        let base = location - 4;
        self.formatter.set_byte(base, (v % 256) as u8);
        self.formatter.set_byte(base + 1, ((v / 0x100) % 256) as u8);
        self.formatter.set_byte(base + 2, ((v / 0x10000) % 256) as u8);
        self.formatter.set_byte(base + 3, ((v / 0x1000000) % 256) as u8);
        proof {
            assert(self@ =~= spliced(old(self)@, location - 4, le_bytes4_i32(value)));
        }
    }

    /// Overwrites the pointer-sized field that ends at `location` with the
    /// given value, little-endian.
    pub fn set_ptr(&mut self, location: usize, value: u64)
        requires
            8 <= location <= old(self)@.len(),
        ensures
            final(self)@ == spliced(old(self)@, location - 8, le_bytes8(value)),
            final(self)@.len() == old(self)@.len(),
            keeps_watchpoints(*old(self), *final(self)),
    {
        let base = location - 8;
        self.formatter.set_byte(base, (value % 256) as u8);
        self.formatter.set_byte(base + 1, ((value / 0x100) % 256) as u8);
        self.formatter.set_byte(base + 2, ((value / 0x10000) % 256) as u8);
        self.formatter.set_byte(base + 3, ((value / 0x1000000) % 256) as u8);
        self.formatter.set_byte(base + 4, ((value / 0x100000000) % 256) as u8);
        self.formatter.set_byte(base + 5, ((value / 0x10000000000) % 256) as u8);
        self.formatter.set_byte(base + 6, ((value / 0x1000000000000) % 256) as u8);
        self.formatter.set_byte(base + 7, ((value / 0x100000000000000) % 256) as u8);
        proof {
            assert(self@ =~= spliced(old(self)@, location - 8, le_bytes8(value)));
        }
    }

    /// Overwrites the byte that ends at `location`.
    pub fn set_i8(&mut self, location: usize, value: i8)
        requires
            1 <= location <= old(self)@.len(),
        ensures
            final(self)@ == spliced(old(self)@, location - 1, seq![byte_of_i32(value as i32)]),
            final(self)@.len() == old(self)@.len(),
            keeps_watchpoints(*old(self), *final(self)),
    {
        let v: u8 = if value >= 0 {
            value as u8
        } else {
            ((value as i32) + 256) as u8
        };
        self.formatter.set_byte(location - 1, v);
        proof {
            assert(self@ =~= spliced(old(self)@, location - 1, seq![byte_of_i32(value as i32)]));
        }
    }

    /// Overwrites the 32-bit relative field that ends at `from` with the
    /// distance from `from` to `to`.
    pub fn set_rel32(&mut self, from: usize, to: usize)
        requires
            4 <= from <= old(self)@.len(),
            from <= u32::MAX,
            to <= u32::MAX,
            i32::MIN <= to - from <= i32::MAX,
        ensures
            final(self)@ == spliced(old(self)@, from - 4, le_bytes4_i32((to - from) as i32)),
            final(self)@.len() == old(self)@.len(),
            keeps_watchpoints(*old(self), *final(self)),
    {
        let diff: i64 = to as i64 - from as i64;
        self.set_i32(from, diff as i32);
    }

    /// Overwrites the pointer-sized field that ends at `location`.
    pub fn repatch_ptr(&mut self, location: usize, value: u64)
        requires
            8 <= location <= old(self)@.len(),
        ensures
            final(self)@ == spliced(old(self)@, location - 8, le_bytes8(value)),
            final(self)@.len() == old(self)@.len(),
            keeps_watchpoints(*old(self), *final(self)),
    {
        self.set_ptr(location, value)
    }

    /// Overwrites the 32-bit field that ends at `location`.
    pub fn repatch_i32(&mut self, location: usize, value: i32)
        requires
            4 <= location <= old(self)@.len(),
        ensures
            final(self)@ == spliced(old(self)@, location - 4, le_bytes4_i32(value)),
            final(self)@.len() == old(self)@.len(),
            keeps_watchpoints(*old(self), *final(self)),
    {
        self.set_i32(location, value)
    }

    /// Recomputes the 32-bit relative displacement of the jump whose
    /// displacement field ends at `from`, aiming it at `to`.
    pub fn relink_jump(&mut self, from: usize, to: usize)
        requires
            4 <= from <= old(self)@.len(),
            from <= u32::MAX,
            to <= u32::MAX,
            i32::MIN <= to - from <= i32::MAX,
        ensures
            final(self)@ == spliced(old(self)@, from - 4, le_bytes4_i32((to - from) as i32)),
            final(self)@.len() == old(self)@.len(),
            keeps_watchpoints(*old(self), *final(self)),
    {
        self.set_rel32(from, to);
    }

    /// Recomputes the 32-bit relative displacement of the call whose
    /// displacement field ends at `from`, aiming it at `to`.
    pub fn relink_call(&mut self, from: usize, to: usize)
        requires
            4 <= from <= old(self)@.len(),
            from <= u32::MAX,
            to <= u32::MAX,
            i32::MIN <= to - from <= i32::MAX,
        ensures
            final(self)@ == spliced(old(self)@, from - 4, le_bytes4_i32((to - from) as i32)),
            final(self)@.len() == old(self)@.len(),
            keeps_watchpoints(*old(self), *final(self)),
    {
        self.set_rel32(from, to);
    }

    /// Resolves a recorded jump: overwrites the displacement field ending
    /// at `from` with the distance to `to`.
    pub fn link_jump(&mut self, from: AssemblerLabel, to: AssemblerLabel)
        requires
            4 <= from.offset <= old(self)@.len(),
            i32::MIN <= to.offset - from.offset <= i32::MAX,
        ensures
            final(self)@ == spliced(
                old(self)@,
                from.offset - 4,
                le_bytes4_i32((to.offset - from.offset) as i32),
            ),
            final(self)@.len() == old(self)@.len(),
            keeps_watchpoints(*old(self), *final(self)),
    {
        self.set_rel32(from.offset as usize, to.offset as usize);
    }

    /// Resolves a recorded absolute pointer: overwrites the pointer-sized
    /// field ending at the label's offset.
    pub fn link_ptr(&mut self, w: AssemblerLabel, value: u64)
        requires
            w.offset != u32::MAX,
            8 <= w.offset <= old(self)@.len(),
        ensures
            final(self)@ == spliced(old(self)@, w.offset - 8, le_bytes8(value)),
            final(self)@.len() == old(self)@.len(),
            keeps_watchpoints(*old(self), *final(self)),
    {
        self.set_ptr(w.offset as usize, value);
    }

    /// Resolves a recorded call target as an absolute pointer.
    pub fn link_call(&mut self, w: AssemblerLabel, value: u64)
        requires
            w.offset != u32::MAX,
            8 <= w.offset <= old(self)@.len(),
        ensures
            final(self)@ == spliced(old(self)@, w.offset - 8, le_bytes8(value)),
            final(self)@.len() == old(self)@.len(),
            keeps_watchpoints(*old(self), *final(self)),
    {
        self.set_ptr(w.offset as usize, value);
    }

    /// Resolves a recorded jump target as an absolute pointer.
    pub fn slink_jump(&mut self, w: AssemblerLabel, value: u64)
        requires
            w.offset != u32::MAX,
            8 <= w.offset <= old(self)@.len(),
        ensures
            final(self)@ == spliced(old(self)@, w.offset - 8, le_bytes8(value)),
            final(self)@.len() == old(self)@.len(),
            keeps_watchpoints(*old(self), *final(self)),
    {
        self.set_ptr(w.offset as usize, value);
    }

    /// The buffer offset a set label names; the label must not be the
    /// unset sentinel.
    pub fn get_relocate_offset(lbl: AssemblerLabel) -> (r: usize)
        requires
            lbl.offset != u32::MAX,
        ensures
            r == lbl.offset,
    {
        lbl.offset as usize
    }

    /// Reads back the pointer-sized little-endian field that ends at
    /// `location`.
    pub fn read_ptr(&self, location: usize) -> (r: u64)
        requires
            8 <= location <= self@.len(),
        ensures
            r == le_decode8(self@.subrange(location - 8, location as int)),
    {
        let base = location - 8;
        let b0 = self.formatter.byte_at(base);
        let b1 = self.formatter.byte_at(base + 1);
        let b2 = self.formatter.byte_at(base + 2);
        let b3 = self.formatter.byte_at(base + 3);
        let b4 = self.formatter.byte_at(base + 4);
        let b5 = self.formatter.byte_at(base + 5);
        let b6 = self.formatter.byte_at(base + 6);
        let b7 = self.formatter.byte_at(base + 7);
        (b0 as u64) + (b1 as u64) * 0x100 + (b2 as u64) * 0x10000 + (b3 as u64) * 0x1000000 + (
        b4 as u64) * 0x100000000 + (b5 as u64) * 0x10000000000 + (b6 as u64) * 0x1000000000000 + (
        b7 as u64) * 0x100000000000000
    }

    /// Overwrites the five bytes at `at` with an unconditional jump to
    /// `to`, its displacement relative to the end of the rewritten
    /// instruction.
    pub fn replace_with_jump(&mut self, at: usize, to: usize)
        requires
            at + 5 <= old(self)@.len(),
            at + 5 <= u32::MAX,
            to <= u32::MAX,
            i32::MIN <= to - (at + 5) <= i32::MAX,
        ensures
            final(self)@ == spliced(
                old(self)@,
                at as int,
                seq![OP_JMP_rel32] + le_bytes4_i32((to - (at + 5)) as i32),
            ),
            final(self)@.len() == old(self)@.len(),
            keeps_watchpoints(*old(self), *final(self)),
    {
        self.formatter.set_byte(at, OP_JMP_rel32);
        let diff: i64 = to as i64 - (at as i64 + 5);
        self.set_i32(at + 5, diff as i32);
        proof {
            assert(self@ =~= spliced(
                old(self)@,
                at as int,
                seq![OP_JMP_rel32] + le_bytes4_i32((to - (at + 5)) as i32),
            ));
        }
    }

    /// Swaps the load instruction at `at` (skipping a REX prefix) for the
    /// effective-address-only form with the same operand encoding; an
    /// address computation is left as it is.
    pub fn replace_with_address_computation(&mut self, at: usize)
        requires
            at < old(self)@.len(),
            opcode_index(old(self)@, at as int) < old(self)@.len(),
            old(self)@[opcode_index(old(self)@, at as int)] == OP_MOV_GvEv || old(
                self,
            )@[opcode_index(old(self)@, at as int)] == OP_LEA,
        ensures
            final(self)@ == old(self)@.update(opcode_index(old(self)@, at as int), OP_LEA),
            final(self)@.len() == old(self)@.len(),
            keeps_watchpoints(*old(self), *final(self)),
    {
        let n = self.formatter.code_size();
        assert(at < n);
        let b = self.formatter.byte_at(at);
        let i = if (b & 0xF0) == PRE_REX {
            at + 1
        } else {
            at
        };
        let op = self.formatter.byte_at(i);
        if op == OP_MOV_GvEv {
            self.formatter.set_byte(i, OP_LEA);
        } else {
            proof {
                assert(old(self)@.update(i as int, OP_LEA) =~= old(self)@);
            }
        }
    }

    /// Swaps the address computation at `at` (skipping a REX prefix) for
    /// the memory-load form with the same operand encoding; a load is left
    /// as it is.
    pub fn replace_with_load(&mut self, at: usize)
        requires
            at < old(self)@.len(),
            opcode_index(old(self)@, at as int) < old(self)@.len(),
            old(self)@[opcode_index(old(self)@, at as int)] == OP_MOV_GvEv || old(
                self,
            )@[opcode_index(old(self)@, at as int)] == OP_LEA,
        ensures
            final(self)@ == old(self)@.update(opcode_index(old(self)@, at as int), OP_MOV_GvEv),
            final(self)@.len() == old(self)@.len(),
            keeps_watchpoints(*old(self), *final(self)),
    {
        let n = self.formatter.code_size();
        assert(at < n);
        let b = self.formatter.byte_at(at);
        let i = if (b & 0xF0) == PRE_REX {
            at + 1
        } else {
            at
        };
        let op = self.formatter.byte_at(i);
        if op == OP_LEA {
            self.formatter.set_byte(i, OP_MOV_GvEv);
        } else {
            proof {
                assert(old(self)@.update(i as int, OP_MOV_GvEv) =~= old(self)@);
            }
        }
    }

    /// Overwrites the six bytes at `at` with a compare of a memory operand
    /// against a 32-bit immediate, always in the widest immediate form so
    /// the rewrite is size-preserving.
    pub fn revert_jump_to_cmpl_im_force32(&mut self, at: usize, imm: i32, _offset: i32, dst: u8)
        requires
            at + 6 <= old(self)@.len(),
            dst <= 7,
        ensures
            final(self)@ == spliced(
                old(self)@,
                at as int,
                seq![OP_GROUP1_EvIz, modrm_byte(0, GROUP1_OP_CMP, dst)] + le_bytes4_i32(imm),
            ),
            final(self)@.len() == old(self)@.len(),
            keeps_watchpoints(*old(self), *final(self)),
    {
        let n = self.formatter.code_size();
        assert(at + 6 <= n);
        self.formatter.set_byte(at, OP_GROUP1_EvIz);
        self.formatter.set_byte(at + 1, modrm_value(0, GROUP1_OP_CMP, dst));
        self.set_i32(at + 6, imm);
        proof {
            assert(self@ =~= spliced(
                old(self)@,
                at as int,
                seq![OP_GROUP1_EvIz, modrm_byte(0, GROUP1_OP_CMP, dst)] + le_bytes4_i32(imm),
            ));
        }
    }

    /// Overwrites the six bytes at `at` with a compare of a register
    /// against a 32-bit immediate, always in the widest immediate form so
    /// the rewrite is size-preserving.
    pub fn revert_jump_to_cmpl_ir_force32(&mut self, at: usize, imm: i32, dst: u8)
        requires
            at + 6 <= old(self)@.len(),
            dst <= 7,
        ensures
            final(self)@ == spliced(
                old(self)@,
                at as int,
                seq![OP_GROUP1_EvIz, modrm_byte(3, GROUP1_OP_CMP, dst)] + le_bytes4_i32(imm),
            ),
            final(self)@.len() == old(self)@.len(),
            keeps_watchpoints(*old(self), *final(self)),
    {
        let n = self.formatter.code_size();
        assert(at + 6 <= n);
        self.formatter.set_byte(at, OP_GROUP1_EvIz);
        self.formatter.set_byte(at + 1, modrm_value(3, GROUP1_OP_CMP, dst));
        self.set_i32(at + 6, imm);
        proof {
            assert(self@ =~= spliced(
                old(self)@,
                at as int,
                seq![OP_GROUP1_EvIz, modrm_byte(3, GROUP1_OP_CMP, dst)] + le_bytes4_i32(imm),
            ));
        }
    }

    /// Overwrites the ten bytes at `at` with a move of a full 64-bit
    /// immediate into a register, always in the widest form so the rewrite
    /// is size-preserving.
    pub fn revert_jump_to_movq_i64r(&mut self, at: usize, imm: i64, dst: u8)
        requires
            at + 10 <= old(self)@.len(),
            dst <= 15,
        ensures
            final(self)@ == spliced(
                old(self)@,
                at as int,
                seq![rex_byte(1, 0, 0, dst), (OP_MOV_EAXIv + (dst & 7)) as u8] + le_bytes8_i64(
                    imm,
                ),
            ),
            final(self)@.len() == old(self)@.len(),
            keeps_watchpoints(*old(self), *final(self)),
    {
        let n = self.formatter.code_size();
        assert(at + 10 <= n);
        self.formatter.set_byte(at, rex_value(1, 0, 0, dst));
        assert(dst & 7 <= 7) by (bit_vector);
        self.formatter.set_byte(at + 1, OP_MOV_EAXIv + (dst & 7));
        let v = u64_from_i64(imm);
        self.formatter.set_byte(at + 2, (v % 256) as u8);
        self.formatter.set_byte(at + 3, ((v / 0x100) % 256) as u8);
        self.formatter.set_byte(at + 4, ((v / 0x10000) % 256) as u8);
        self.formatter.set_byte(at + 5, ((v / 0x1000000) % 256) as u8);
        self.formatter.set_byte(at + 6, ((v / 0x100000000) % 256) as u8);
        self.formatter.set_byte(at + 7, ((v / 0x10000000000) % 256) as u8);
        self.formatter.set_byte(at + 8, ((v / 0x1000000000000) % 256) as u8);
        self.formatter.set_byte(at + 9, ((v / 0x100000000000000) % 256) as u8);
        proof {
            assert(self@ =~= spliced(
                old(self)@,
                at as int,
                seq![rex_byte(1, 0, 0, dst), (OP_MOV_EAXIv + (dst & 7)) as u8] + le_bytes8_i64(
                    imm,
                ),
            ));
        }
    }
}



/// Decoding eight little-endian bytes undoes the encoding: reading back a
/// patched pointer-sized field returns exactly the value written into it.
pub proof fn lemma_le_bytes8_round_trip(v: u64)
    ensures
        le_decode8(le_bytes8(v)) == v,
{
    assert(v % 256 + (v / 0x100) % 256 * 0x100 + (v / 0x10000) % 256 * 0x10000 + (v / 0x1000000)
        % 256 * 0x1000000 + (v / 0x100000000) % 256 * 0x100000000 + (v / 0x10000000000) % 256
        * 0x10000000000 + (v / 0x1000000000000) % 256 * 0x1000000000000 + (v / 0x100000000000000)
        % 256 * 0x100000000000000 == v) by (bit_vector);
}

/// Two consecutive labels taken around emissions totalling `n` bytes, with
/// no watchpoint reservation between them, differ by exactly `n`: the
/// first label leaves the buffer end at or past the reservation tail, so
/// the second label needs no padding.
pub proof fn lemma_labels_differ_by_emitted(len: nat, tail: nat, n: nat)
    ensures
        ({
            let first = padded_label_offset(len, tail);
            padded_label_offset(first + n, tail) - first == n
        }),
{
}

/// A label never lands inside the most recent watchpoint reservation: the
/// offset it returns is at or past the reservation tail.
pub proof fn lemma_label_past_watchpoint(len: nat, tail: nat)
    ensures
        padded_label_offset(len, tail) >= tail,
{
}

/// A watchpoint reservation at offset `o` leaves exactly five unused bytes
/// before the next unreserved position: with nothing emitted after it, the
/// next label lands at `o + 5`.
pub proof fn lemma_watchpoint_reserves_five(o: nat)
    ensures
        padded_label_offset(o, o + 5) - o == 5,
{
}

/// Displacement-width selection, stated over the operand encoding: the
/// zero displacement is omitted exactly when the base is not a reserved
/// "no-base" encoding, a one-byte displacement appears exactly when the
/// offset fits a signed byte and is not omitted, and any other offset
/// takes four displacement bytes.
pub proof fn lemma_displacement_selection(r: u8, base: u8, offset: i32)
    ensures
        ({
            let bytes = mem_operand_bytes(r, base, offset);
            let header: nat = if base_has_sib(base) {
                2
            } else {
                1
            };
            &&& (bytes.len() == header <==> (offset == 0 && !base_is_no_base(base)))
            &&& (bytes.len() == header + 1 <==> (-128 <= offset <= 127 && !(offset == 0
                && !base_is_no_base(base))))
            &&& (bytes.len() == header + 4 <==> (offset < -128 || offset > 127))
        }),
{
}

/// REX emission: in the ordinary operand forms a REX byte appears exactly
/// when some involved encoding names an extended register (eight or
/// above); in the 8-bit-operand forms it appears exactly when some
/// involved encoding is four or above; and the 64-bit-operand forms always
/// carry a REX byte with both the fixed prefix bits and the width bit set.
pub proof fn lemma_rex_emission(reg: u8, index: u8, base: u8)
    ensures
        rex_if(rex_needed(reg, index, base), reg, index, base).len() == 1 <==> (reg >= 8 || index
            >= 8 || base >= 8),
        rex_if(
            byte_reg_needs_rex(reg) || byte_reg_needs_rex(index) || byte_reg_needs_rex(base),
            reg,
            index,
            base,
        ).len() == 1 <==> (reg >= 4 || index >= 4 || base >= 4),
        rex_byte(1, reg, index, base) & 0x48 == 0x48,
{
    let r = reg;
    let x = index;
    let b = base;
    assert((0x40u8 | (1u8 << 3) | ((r >> 3) << 2) | ((x >> 3) << 1) | (b >> 3)) & 0x48
        == 0x48) by (bit_vector);
}


} // verus!
