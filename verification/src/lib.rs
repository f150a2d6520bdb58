//! Runtime x86-64 machine-code emission: a growable code buffer with a
//! label/watchpoint protocol, a ModRM/SIB/REX instruction encoder, and
//! in-place patch/relink operations, all specified byte-for-byte.

pub mod assembler;
pub mod mem;
pub mod x86assembler;
