//! The growable code buffer and the labels that name byte offsets in it.
//!
//! The buffer is modelled as the sequence of bytes appended so far; every
//! emission states exactly which bytes it adds. Multi-byte values are stored
//! little-endian, as x86 instruction fields require.

use vstd::prelude::*;

verus! {

/// The little-endian bytes of a 16-bit value.
pub open spec fn le_bytes2(v: u16) -> Seq<u8> {
    seq![(v % 256) as u8, ((v / 256) % 256) as u8]
}

/// The little-endian bytes of a 32-bit value.
pub open spec fn le_bytes4(v: u32) -> Seq<u8> {
    seq![
        (v % 256) as u8,
        ((v / 0x100) % 256) as u8,
        ((v / 0x10000) % 256) as u8,
        ((v / 0x1000000) % 256) as u8,
    ]
}

/// The little-endian bytes of a 64-bit value.
pub open spec fn le_bytes8(v: u64) -> Seq<u8> {
    seq![
        (v % 256) as u8,
        ((v / 0x100) % 256) as u8,
        ((v / 0x10000) % 256) as u8,
        ((v / 0x1000000) % 256) as u8,
        ((v / 0x100000000) % 256) as u8,
        ((v / 0x10000000000) % 256) as u8,
        ((v / 0x1000000000000) % 256) as u8,
        ((v / 0x100000000000000) % 256) as u8,
    ]
}

/// The two's-complement reading of a signed 32-bit value as unsigned.
pub open spec fn u32_of_i32(v: i32) -> u32 {
    if v >= 0 {
        v as u32
    } else {
        (v + 0x100000000) as u32
    }
}

/// The two's-complement reading of a signed 64-bit value as unsigned.
pub open spec fn u64_of_i64(v: i64) -> u64 {
    if v >= 0 {
        v as u64
    } else {
        (v + 0x10000000000000000) as u64
    }
}

/// The two's-complement byte of a signed value in the 8-bit range.
pub open spec fn byte_of_i32(v: i32) -> u8
    recommends
        -128 <= v <= 127,
{
    if v >= 0 {
        v as u8
    } else {
        (v + 256) as u8
    }
}

/// The little-endian bytes of a signed 32-bit value.
pub open spec fn le_bytes4_i32(v: i32) -> Seq<u8> {
    le_bytes4(u32_of_i32(v))
}

/// The little-endian bytes of a signed 64-bit value.
pub open spec fn le_bytes8_i64(v: i64) -> Seq<u8> {
    le_bytes8(u64_of_i64(v))
}

/// Names a byte offset in a code buffer. The all-ones offset is the "unset"
/// sentinel, distinguished by `is_set`.
#[derive(Copy, Clone, PartialEq, Eq, Structural, Debug)]
pub struct AssemblerLabel {
    pub offset: u32,
}

impl Default for AssemblerLabel {
    /// The unset label.
    fn default() -> (r: Self)
        ensures
            r.offset == u32::MAX,
    {
        AssemblerLabel { offset: u32::MAX }
    }
}

impl AssemblerLabel {
    pub fn new(x: u32) -> (r: Self)
        ensures
            r.offset == x,
    {
        AssemblerLabel { offset: x }
    }

    /// Whether the label names a real offset rather than the sentinel.
    pub fn is_set(&self) -> (r: bool)
        ensures
            r <==> self.offset != u32::MAX,
    {
        self.offset != u32::MAX
    }

    /// A label `offset` bytes past this one.
    pub fn label_at_offset(&self, offset: u32) -> (r: Self)
        requires
            self.offset + offset <= u32::MAX,
        ensures
            r.offset == self.offset + offset,
    {
        AssemblerLabel::new(self.offset + offset)
    }
}

/// A growable byte sink holding the machine code emitted so far.
pub struct AssemblerBuffer {
    storage: Vec<u8>,
}

impl View for AssemblerBuffer {
    type V = Seq<u8>;

    closed spec fn view(&self) -> Seq<u8> {
        self.storage@
    }
}

impl AssemblerBuffer {
    pub fn new() -> (r: Self)
        ensures
            r@ == Seq::<u8>::empty(),
    {
        AssemblerBuffer { storage: Vec::with_capacity(128) }
    }

    /// Appends the given bytes at the end of the buffer.
    pub fn append(&mut self, data: &[u8])
        ensures
            final(self)@ == old(self)@ + data@,
    {
        let n = data.len();
        let mut i: usize = 0;
        while i < n
            invariant
                i <= n,
                n == data@.len(),
                self@ == old(self)@ + data@.subrange(0, i as int),
            decreases n - i,
        {
            let b = data[i];
            self.storage.push(b);
            proof {
                assert(old(self)@ + data@.subrange(0, (i + 1) as int) =~= (old(self)@
                    + data@.subrange(0, i as int)).push(data@[i as int]));
            }
            i += 1;
        }
        proof {
            assert(data@.subrange(0, n as int) =~= data@);
        }
    }

    /// A label naming the current end of the buffer.
    pub fn label(&self) -> (r: AssemblerLabel)
        requires
            self@.len() <= u32::MAX,
        ensures
            r.offset == self@.len(),
    {
        AssemblerLabel::new(self.storage.len() as u32)
    }

    /// The number of bytes emitted so far.
    pub fn code_size(&self) -> (r: usize)
        ensures
            r == self@.len(),
    {
        self.storage.len()
    }

    /// A read view of the emitted bytes.
    pub fn data(&self) -> (r: &[u8])
        ensures
            r@ == self@,
    {
        self.storage.as_slice()
    }

    /// A read-write view of the emitted bytes, for backpatching in place.
    pub fn data_mut(&mut self) -> (r: &mut [u8])
        ensures
            r@ == old(self)@,
            final(r)@ == final(self)@,
    {
        self.storage.as_mut_slice()
    }

    /// Overwrites one already-emitted byte in place.
    pub fn set_byte(&mut self, i: usize, value: u8)
        requires
            i < old(self)@.len(),
        ensures
            final(self)@ == old(self)@.update(i as int, value),
    {
        self.storage[i] = value;
    }

    /// Reads one already-emitted byte.
    pub fn byte_at(&self, i: usize) -> (r: u8)
        requires
            i < self@.len(),
        ensures
            r == self@[i as int],
    {
        self.storage[i]
    }

    /// Appends one byte.
    pub fn put_byte(&mut self, value: u8)
        ensures
            final(self)@ == old(self)@ + seq![value],
    {
        self.storage.push(value);
        proof {
            assert(self@ =~= old(self)@ + seq![value]);
        }
    }

    /// Appends a 16-bit value, little-endian.
    pub fn put_short(&mut self, value: u16)
        ensures
            final(self)@ == old(self)@ + le_bytes2(value),
    {
        self.storage.push((value % 256) as u8);
        self.storage.push(((value / 256) % 256) as u8);
        proof {
            assert(self@ =~= old(self)@ + le_bytes2(value));
        }
    }

    /// Appends a signed 32-bit value, little-endian two's complement.
    pub fn put_int(&mut self, value: i32)
        ensures
            final(self)@ == old(self)@ + le_bytes4_i32(value),
    {
        let v: u32 = if value >= 0 {
            value as u32
        } else {
            ((value as i64) + 0x100000000) as u32
        };
        assert(v == u32_of_i32(value));
        self.storage.push((v % 256) as u8);
        self.storage.push(((v / 0x100) % 256) as u8);
        self.storage.push(((v / 0x10000) % 256) as u8);
        self.storage.push(((v / 0x1000000) % 256) as u8);
        proof {
            assert(self@ =~= old(self)@ + le_bytes4_i32(value));
        }
    }

    /// Appends a 64-bit value, little-endian.
    pub fn put_long(&mut self, value: u64)
        ensures
            final(self)@ == old(self)@ + le_bytes8(value),
    {
        self.storage.push((value % 256) as u8);
        self.storage.push(((value / 0x100) % 256) as u8);
        self.storage.push(((value / 0x10000) % 256) as u8);
        self.storage.push(((value / 0x1000000) % 256) as u8);
        self.storage.push(((value / 0x100000000) % 256) as u8);
        self.storage.push(((value / 0x10000000000) % 256) as u8);
        self.storage.push(((value / 0x1000000000000) % 256) as u8);
        self.storage.push(((value / 0x100000000000000) % 256) as u8);
        proof {
            assert(self@ =~= old(self)@ + le_bytes8(value));
        }
    }
}

} // verus!
