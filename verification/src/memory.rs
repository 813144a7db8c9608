//! Flat byte-addressable memory with little-endian 32/16/8-bit accessors.
//!
//! Multi-byte values are stored least-significant byte first. The signed
//! reads deliberately copy the sign bit one position upward (to bit 16 for
//! 16-bit reads, to bit 8 for 8-bit reads) instead of performing a full
//! two's-complement fill; that non-canonical extension is part of the
//! memory's contract and is preserved exactly.

use vstd::prelude::*;

use crate::errors::RuntimeError;

verus! {

/// The 32-bit value stored little-endian at byte offset `a` of `b`.
pub open spec fn le32(b: Seq<u8>, a: int) -> u32 {
    (b[a] as u32) | ((b[a + 1] as u32) << 8) | ((b[a + 2] as u32) << 16) | ((b[a + 3] as u32)
        << 24)
}

/// The 16-bit value stored little-endian at byte offset `a` of `b`,
/// zero-extended to 32 bits.
pub open spec fn le16(b: Seq<u8>, a: int) -> u32 {
    (b[a] as u32) | ((b[a + 1] as u32) << 8)
}

/// Byte `k` (counting from the least significant) of the 32-bit value `v`.
pub open spec fn byte_of(v: u32, k: int) -> u8 {
    if k == 0 {
        (v & 0xFF) as u8
    } else if k == 1 {
        ((v >> 8) & 0xFF) as u8
    } else if k == 2 {
        ((v >> 16) & 0xFF) as u8
    } else {
        ((v >> 24) & 0xFF) as u8
    }
}

/// `b` with the four bytes of `v` stored little-endian at offset `a`.
pub open spec fn store32(b: Seq<u8>, a: int, v: u32) -> Seq<u8> {
    Seq::new(b.len(), |i: int| if a <= i < a + 4 { byte_of(v, i - a) } else { b[i] })
}

/// `b` with the low two bytes of `v` stored little-endian at offset `a`.
pub open spec fn store16(b: Seq<u8>, a: int, v: u32) -> Seq<u8> {
    Seq::new(b.len(), |i: int| if a <= i < a + 2 { byte_of(v, i - a) } else { b[i] })
}

/// `b` with the low byte of `v` stored at offset `a`.
pub open spec fn store8(b: Seq<u8>, a: int, v: u32) -> Seq<u8> {
    Seq::new(b.len(), |i: int| if i == a { byte_of(v, 0) } else { b[i] })
}

/// The 16-bit sign quirk: copy bit 15 up to bit 16, nothing more.
pub open spec fn sign_inject16(v: u32) -> u32 {
    v | (((v & 0x8000) >> 15) << 16)
}

/// The 8-bit sign quirk: copy bit 7 up to bit 8, nothing more.
pub open spec fn sign_inject8(v: u32) -> u32 {
    v | (((v & 0x80) >> 7) << 8)
}

/// Fixed-capacity byte memory; the view is the byte sequence.
pub struct Memory {
    memory: Vec<u8>,
}

impl View for Memory {
    type V = Seq<u8>;

    closed spec fn view(&self) -> Seq<u8> {
        self.memory@
    }
}

impl Memory {
    /// A memory of `capacity` bytes. Every byte starts at 1, not 0: the
    /// nonzero fill is a documented quirk of this machine.
    pub fn new(capacity: usize) -> (m: Memory)
        ensures
            m@.len() == capacity,
            forall|i: int| 0 <= i < capacity ==> m@[i] == 1u8,
    {
        let mut v: Vec<u8> = Vec::new();
        while v.len() < capacity
            invariant
                v@.len() <= capacity,
                forall|i: int| 0 <= i < v@.len() ==> v@[i] == 1u8,
            decreases capacity - v@.len(),
        {
            v.push(1u8);
        }
        Memory { memory: v }
    }

    /// A memory's capacity is a machine size: its byte count fits `usize`.
    pub proof fn lemma_len_bound(&self)
        ensures
            self@.len() <= usize::MAX,
    {
        vstd::std_specs::vec::axiom_spec_len(&self.memory);
    }

    /// Read the 32-bit little-endian word at `address`; out-of-bounds
    /// accesses report the address and width instead of panicking.
    pub fn get_memory(&self, address: usize) -> (r: Result<u32, RuntimeError>)
        ensures
            address + 4 <= self@.len() ==> r == Ok::<u32, RuntimeError>(
                le32(self@, address as int),
            ),
            address + 4 > self@.len() ==> r == Err::<u32, RuntimeError>(
                RuntimeError::OutOfBoundsMemoryAccess { address: address as u64, width: 4 },
            ),
    {
        if self.memory.len() < 4 || address > self.memory.len() - 4 {
            return Err(RuntimeError::OutOfBoundsMemoryAccess { address: address as u64, width: 4 });
        }
        let b0 = self.memory[address] as u32;
        let b1 = self.memory[address + 1] as u32;
        let b2 = self.memory[address + 2] as u32;
        let b3 = self.memory[address + 3] as u32;
        Ok(b0 | (b1 << 8) | (b2 << 16) | (b3 << 24))
    }

    /// Read the 16-bit little-endian value at `address`, zero-extended.
    pub fn get_memory_u16(&self, address: usize) -> (r: Result<u32, RuntimeError>)
        ensures
            address + 2 <= self@.len() ==> r == Ok::<u32, RuntimeError>(
                le16(self@, address as int),
            ),
            address + 2 > self@.len() ==> r == Err::<u32, RuntimeError>(
                RuntimeError::OutOfBoundsMemoryAccess { address: address as u64, width: 2 },
            ),
    {
        if self.memory.len() < 2 || address > self.memory.len() - 2 {
            return Err(RuntimeError::OutOfBoundsMemoryAccess { address: address as u64, width: 2 });
        }
        let b0 = self.memory[address] as u32;
        let b1 = self.memory[address + 1] as u32;
        Ok(b0 | (b1 << 8))
    }

    /// Read the byte at `address`, zero-extended.
    pub fn get_memory_u8(&self, address: usize) -> (r: Result<u32, RuntimeError>)
        ensures
            address < self@.len() ==> r == Ok::<u32, RuntimeError>(self@[address as int] as u32),
            address >= self@.len() ==> r == Err::<u32, RuntimeError>(
                RuntimeError::OutOfBoundsMemoryAccess { address: address as u64, width: 1 },
            ),
    {
        if address >= self.memory.len() {
            return Err(RuntimeError::OutOfBoundsMemoryAccess { address: address as u64, width: 1 });
        }
        Ok(self.memory[address] as u32)
    }

    /// Read the 16-bit value at `address` with the one-bit sign injection:
    /// bit 15 is copied to bit 16; bits 17..32 stay clear.
    pub fn get_memory_u16_signed(&self, address: usize) -> (r: Result<u32, RuntimeError>)
        ensures
            address + 2 <= self@.len() ==> r == Ok::<u32, RuntimeError>(
                sign_inject16(le16(self@, address as int)),
            ),
            address + 2 > self@.len() ==> r == Err::<u32, RuntimeError>(
                RuntimeError::OutOfBoundsMemoryAccess { address: address as u64, width: 2 },
            ),
    {
        if self.memory.len() < 2 || address > self.memory.len() - 2 {
            return Err(RuntimeError::OutOfBoundsMemoryAccess { address: address as u64, width: 2 });
        }
        let b0 = self.memory[address] as u32;
        let b1 = self.memory[address + 1] as u32;
        let value = b0 | (b1 << 8);
        let sign_bit = (value & 0x8000) >> 15;
        Ok(value | (sign_bit << 16))
    }

    /// Read the byte at `address` with the one-bit sign injection: bit 7 is
    /// copied to bit 8; bits 9..32 stay clear.
    pub fn get_memory_u8_signed(&self, address: usize) -> (r: Result<u32, RuntimeError>)
        ensures
            address < self@.len() ==> r == Ok::<u32, RuntimeError>(
                sign_inject8(self@[address as int] as u32),
            ),
            address >= self@.len() ==> r == Err::<u32, RuntimeError>(
                RuntimeError::OutOfBoundsMemoryAccess { address: address as u64, width: 1 },
            ),
    {
        if address >= self.memory.len() {
            return Err(RuntimeError::OutOfBoundsMemoryAccess { address: address as u64, width: 1 });
        }
        let value = self.memory[address] as u32;
        let sign_bit = (value & 0x80) >> 7;
        Ok(value | (sign_bit << 8))
    }

    /// Store `value` as a 32-bit little-endian word at `address`.
    pub fn set_memory(&mut self, address: usize, value: u32) -> (r: Result<(), RuntimeError>)
        ensures
            address + 4 <= old(self)@.len() ==> r == Ok::<(), RuntimeError>(()) && final(self)@
                == store32(old(self)@, address as int, value),
            address + 4 > old(self)@.len() ==> r == Err::<(), RuntimeError>(
                RuntimeError::OutOfBoundsMemoryAccess { address: address as u64, width: 4 },
            ) && final(self)@ == old(self)@,
    {
        if self.memory.len() < 4 || address > self.memory.len() - 4 {
            return Err(RuntimeError::OutOfBoundsMemoryAccess { address: address as u64, width: 4 });
        }
        self.memory[address] = (value & 0xFF) as u8;
        self.memory[address + 1] = ((value >> 8) & 0xFF) as u8;
        self.memory[address + 2] = ((value >> 16) & 0xFF) as u8;
        self.memory[address + 3] = ((value >> 24) & 0xFF) as u8;
        proof {
            assert(self@ =~= store32(old(self)@, address as int, value));
        }
        Ok(())
    }

    /// Store the low 16 bits of `value` little-endian at `address`.
    pub fn set_memory_u16(&mut self, address: usize, value: u32) -> (r: Result<(), RuntimeError>)
        ensures
            address + 2 <= old(self)@.len() ==> r == Ok::<(), RuntimeError>(()) && final(self)@
                == store16(old(self)@, address as int, value),
            address + 2 > old(self)@.len() ==> r == Err::<(), RuntimeError>(
                RuntimeError::OutOfBoundsMemoryAccess { address: address as u64, width: 2 },
            ) && final(self)@ == old(self)@,
    {
        if self.memory.len() < 2 || address > self.memory.len() - 2 {
            return Err(RuntimeError::OutOfBoundsMemoryAccess { address: address as u64, width: 2 });
        }
        self.memory[address] = (value & 0xFF) as u8;
        self.memory[address + 1] = ((value >> 8) & 0xFF) as u8;
        proof {
            assert(self@ =~= store16(old(self)@, address as int, value));
        }
        Ok(())
    }

    /// Store the low 8 bits of `value` at `address`.
    pub fn set_memory_u8(&mut self, address: usize, value: u32) -> (r: Result<(), RuntimeError>)
        ensures
            address < old(self)@.len() ==> r == Ok::<(), RuntimeError>(()) && final(self)@
                == store8(old(self)@, address as int, value),
            address >= old(self)@.len() ==> r == Err::<(), RuntimeError>(
                RuntimeError::OutOfBoundsMemoryAccess { address: address as u64, width: 1 },
            ) && final(self)@ == old(self)@,
    {
        if address >= self.memory.len() {
            return Err(RuntimeError::OutOfBoundsMemoryAccess { address: address as u64, width: 1 });
        }
        self.memory[address] = (value & 0xFF) as u8;
        proof {
            assert(self@ =~= store8(old(self)@, address as int, value));
        }
        Ok(())
    }
}

/// A word whose four little-endian bytes stand at offset `a` reads back
/// as that word.
pub proof fn lemma_le32_of_bytes(b: Seq<u8>, a: int, v: u32)
    requires
        0 <= a,
        a + 4 <= b.len(),
        b[a] == byte_of(v, 0),
        b[a + 1] == byte_of(v, 1),
        b[a + 2] == byte_of(v, 2),
        b[a + 3] == byte_of(v, 3),
    ensures
        le32(b, a) == v,
{
    assert(((v & 0xFF) as u8 as u32) | ((((v >> 8) & 0xFF) as u8 as u32) << 8) | ((((v >> 16)
        & 0xFF) as u8 as u32) << 16) | ((((v >> 24) & 0xFF) as u8 as u32) << 24) == v)
        by (bit_vector);
}

/// A value whose two little-endian low bytes stand at offset `a` reads
/// back as its low 16 bits.
pub proof fn lemma_le16_of_bytes(b: Seq<u8>, a: int, v: u32)
    requires
        0 <= a,
        a + 2 <= b.len(),
        b[a] == byte_of(v, 0),
        b[a + 1] == byte_of(v, 1),
    ensures
        le16(b, a) == v & 0xFFFF,
        v <= 0xFFFF ==> le16(b, a) == v,
{
    assert(((v & 0xFF) as u8 as u32) | ((((v >> 8) & 0xFF) as u8 as u32) << 8) == v & 0xFFFF)
        by (bit_vector);
    assert(v <= 0xFFFF ==> v & 0xFFFF == v) by (bit_vector);
}

/// The memory self-check scenario: store words, halfwords and bytes, read
/// each back unchanged, and read the signed values with the one-bit sign
/// injection. Every check is proved, so the function always returns true.
pub fn test_memory() -> (r: bool)
    ensures
        r,
{
    let mut memory = Memory::new(0x40);

    let _ = memory.set_memory(0x000000, 0x12345678);
    let _ = memory.set_memory(0x000004, 0x87654321);
    let _ = memory.set_memory(0x000008, 0x00000000);
    let _ = memory.set_memory(0x00000C, 0xFFFFFFFF);

    let _ = memory.set_memory_u16(0x000010, 0x1234);
    let _ = memory.set_memory_u16(0x000012, 0x5678);
    let _ = memory.set_memory_u16(0x000014, 0x0000);
    let _ = memory.set_memory_u16(0x000016, 0xFFFF);

    let _ = memory.set_memory_u8(0x000018, 0x12);
    let _ = memory.set_memory_u8(0x000019, 0x34);
    let _ = memory.set_memory_u8(0x00001A, 0x56);
    let _ = memory.set_memory_u8(0x00001B, 0x78);

    let _ = memory.set_memory_u16(0x00001C, 0x8000);
    let _ = memory.set_memory_u16(0x00001E, 0x7FFF);
    let _ = memory.set_memory_u8(0x000020, 0x80);
    let _ = memory.set_memory_u8(0x000021, 0x7F);

    proof {
        lemma_le32_of_bytes(memory@, 0x00, 0x12345678);
        lemma_le32_of_bytes(memory@, 0x04, 0x87654321);
        lemma_le32_of_bytes(memory@, 0x08, 0x00000000);
        lemma_le32_of_bytes(memory@, 0x0C, 0xFFFFFFFF);
        lemma_le16_of_bytes(memory@, 0x10, 0x1234);
        lemma_le16_of_bytes(memory@, 0x12, 0x5678);
        lemma_le16_of_bytes(memory@, 0x14, 0x0000);
        lemma_le16_of_bytes(memory@, 0x16, 0xFFFF);
        lemma_write8_read8(memory@, 0x18, 0x12);
        lemma_write8_read8(memory@, 0x19, 0x34);
        lemma_write8_read8(memory@, 0x1A, 0x56);
        lemma_write8_read8(memory@, 0x1B, 0x78);
        lemma_write8_read8(memory@, 0x20, 0x80);
        lemma_write8_read8(memory@, 0x21, 0x7F);
        lemma_le16_of_bytes(memory@, 0x1C, 0x8000);
        lemma_le16_of_bytes(memory@, 0x1E, 0x7FFF);
        lemma_sign_inject16_quirk(0x8000);
        lemma_sign_inject16_quirk(0x7FFF);
        lemma_sign_inject8_quirk(0x80);
        lemma_sign_inject8_quirk(0x7F);
    }

    let r0 = memory.get_memory(0x000000);
    assert(r0 == Ok::<u32, RuntimeError>(0x12345678));
    let r1 = memory.get_memory(0x000004);
    assert(r1 == Ok::<u32, RuntimeError>(0x87654321));
    let r2 = memory.get_memory(0x000008);
    assert(r2 == Ok::<u32, RuntimeError>(0x00000000));
    let r3 = memory.get_memory(0x00000C);
    assert(r3 == Ok::<u32, RuntimeError>(0xFFFFFFFF));

    let h0 = memory.get_memory_u16(0x000010);
    assert(h0 == Ok::<u32, RuntimeError>(0x1234));
    let h1 = memory.get_memory_u16(0x000012);
    assert(h1 == Ok::<u32, RuntimeError>(0x5678));
    let h2 = memory.get_memory_u16(0x000014);
    assert(h2 == Ok::<u32, RuntimeError>(0x0000));
    let h3 = memory.get_memory_u16(0x000016);
    assert(h3 == Ok::<u32, RuntimeError>(0xFFFF));

    let b0 = memory.get_memory_u8(0x000018);
    assert(b0 == Ok::<u32, RuntimeError>(0x12));
    let b1 = memory.get_memory_u8(0x000019);
    assert(b1 == Ok::<u32, RuntimeError>(0x34));
    let b2 = memory.get_memory_u8(0x00001A);
    assert(b2 == Ok::<u32, RuntimeError>(0x56));
    let b3 = memory.get_memory_u8(0x00001B);
    assert(b3 == Ok::<u32, RuntimeError>(0x78));

    let s0 = memory.get_memory_u16_signed(0x00001C);
    assert(s0 == Ok::<u32, RuntimeError>(0x18000));
    let s1 = memory.get_memory_u16_signed(0x00001E);
    assert(s1 == Ok::<u32, RuntimeError>(0x7FFF));
    let s2 = memory.get_memory_u8_signed(0x000020);
    assert(s2 == Ok::<u32, RuntimeError>(0x180));
    let s3 = memory.get_memory_u8_signed(0x000021);
    assert(s3 == Ok::<u32, RuntimeError>(0x7F));

    true
}

/// Round trip for 32-bit accesses: reading back a word just written
/// returns the value unchanged, for every in-bounds address and value.
pub proof fn lemma_write32_read32(b: Seq<u8>, a: int, v: u32)
    requires
        0 <= a,
        a + 4 <= b.len(),
    ensures
        le32(store32(b, a, v), a) == v,
{
    let s = store32(b, a, v);
    assert(s[a] == byte_of(v, 0));
    assert(s[a + 1] == byte_of(v, 1));
    assert(s[a + 2] == byte_of(v, 2));
    assert(s[a + 3] == byte_of(v, 3));
    assert(((v & 0xFF) as u8 as u32) | ((((v >> 8) & 0xFF) as u8 as u32) << 8) | ((((v >> 16)
        & 0xFF) as u8 as u32) << 16) | ((((v >> 24) & 0xFF) as u8 as u32) << 24) == v)
        by (bit_vector);
}

/// Round trip for 16-bit accesses: reading back returns the low 16 bits of
/// the value written; for values that fit in 16 bits, the value itself.
pub proof fn lemma_write16_read16(b: Seq<u8>, a: int, v: u32)
    requires
        0 <= a,
        a + 2 <= b.len(),
    ensures
        le16(store16(b, a, v), a) == v & 0xFFFF,
        v <= 0xFFFF ==> le16(store16(b, a, v), a) == v,
{
    let s = store16(b, a, v);
    assert(s[a] == byte_of(v, 0));
    assert(s[a + 1] == byte_of(v, 1));
    assert(((v & 0xFF) as u8 as u32) | ((((v >> 8) & 0xFF) as u8 as u32) << 8) == v & 0xFFFF)
        by (bit_vector);
    assert(v <= 0xFFFF ==> v & 0xFFFF == v) by (bit_vector);
}

/// Round trip for 8-bit accesses: reading back returns the low 8 bits of
/// the value written; for values that fit in 8 bits, the value itself.
pub proof fn lemma_write8_read8(b: Seq<u8>, a: int, v: u32)
    requires
        0 <= a,
        a < b.len(),
    ensures
        store8(b, a, v)[a] as u32 == v & 0xFF,
        v <= 0xFF ==> store8(b, a, v)[a] as u32 == v,
{
    assert(store8(b, a, v)[a] == byte_of(v, 0));
    assert(((v & 0xFF) as u8 as u32) == v & 0xFF) by (bit_vector);
    assert(v <= 0xFF ==> v & 0xFF == v) by (bit_vector);
}

/// The signed-read quirk, exactly: for a 16-bit value with bit 15 set, the
/// signed read adds bit 16 and nothing above it; with bit 15 clear it
/// returns the value unchanged.
pub proof fn lemma_sign_inject16_quirk(v: u32)
    requires
        v <= 0xFFFF,
    ensures
        v >= 0x8000 ==> sign_inject16(v) == v + 0x10000,
        v < 0x8000 ==> sign_inject16(v) == v,
        sign_inject16(v) <= 0x1FFFF,
{
    assert(v <= 0xFFFF && v >= 0x8000 ==> (v | (((v & 0x8000) >> 15) << 16)) == v + 0x10000)
        by (bit_vector);
    assert(v < 0x8000 ==> (v | (((v & 0x8000) >> 15) << 16)) == v) by (bit_vector);
    assert(v <= 0xFFFF ==> (v | (((v & 0x8000) >> 15) << 16)) <= 0x1FFFF) by (bit_vector);
}

/// The 8-bit signed-read quirk, exactly: bit 7 set adds bit 8 and nothing
/// above it; bit 7 clear returns the value unchanged.
pub proof fn lemma_sign_inject8_quirk(v: u32)
    requires
        v <= 0xFF,
    ensures
        v >= 0x80 ==> sign_inject8(v) == v + 0x100,
        v < 0x80 ==> sign_inject8(v) == v,
        sign_inject8(v) <= 0x1FF,
{
    assert(v <= 0xFF && v >= 0x80 ==> (v | (((v & 0x80) >> 7) << 8)) == v + 0x100)
        by (bit_vector);
    assert(v < 0x80 ==> (v | (((v & 0x80) >> 7) << 8)) == v) by (bit_vector);
    assert(v <= 0xFF ==> (v | (((v & 0x80) >> 7) << 8)) <= 0x1FF) by (bit_vector);
}

} // verus!
