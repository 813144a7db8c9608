use vcpu::errors::RuntimeError;
use vcpu::memory::{test_memory, Memory};

#[test]
fn word_round_trips() {
    let mut m = Memory::new(64);
    assert_eq!(m.set_memory(0, 0x12345678), Ok(()));
    assert_eq!(m.get_memory(0), Ok(0x12345678));
    assert_eq!(m.set_memory(20, 0xFFFFFFFF), Ok(()));
    assert_eq!(m.get_memory(20), Ok(0xFFFFFFFF));
    assert_eq!(m.set_memory_u16(8, 0xBEEF), Ok(()));
    assert_eq!(m.get_memory_u16(8), Ok(0xBEEF));
    assert_eq!(m.set_memory_u8(12, 0x5A), Ok(()));
    assert_eq!(m.get_memory_u8(12), Ok(0x5A));
}

#[test]
fn little_endian_byte_order() {
    let mut m = Memory::new(16);
    assert_eq!(m.set_memory(0, 0x11223344), Ok(()));
    assert_eq!(m.get_memory_u8(0), Ok(0x44));
    assert_eq!(m.get_memory_u8(1), Ok(0x33));
    assert_eq!(m.get_memory_u8(2), Ok(0x22));
    assert_eq!(m.get_memory_u8(3), Ok(0x11));
    assert_eq!(m.get_memory_u16(0), Ok(0x3344));
    assert_eq!(m.get_memory_u16(2), Ok(0x1122));
}

#[test]
fn initial_fill_is_one() {
    let m = Memory::new(8);
    assert_eq!(m.get_memory_u8(0), Ok(1));
    assert_eq!(m.get_memory_u8(7), Ok(1));
    assert_eq!(m.get_memory(0), Ok(0x01010101));
}

#[test]
fn signed_read_sets_exactly_one_extra_bit() {
    let mut m = Memory::new(64);
    assert_eq!(m.set_memory_u16(0, 0x8000), Ok(()));
    // The exact pattern: bit 16 set, bits 17..32 clear, not a full fill.
    assert_eq!(m.get_memory_u16_signed(0), Ok(0x18000));
    assert_eq!(m.get_memory_u16_signed(0).unwrap() as u16 as i16, -32768);
    assert_eq!(m.set_memory_u16(2, 0x7FFF), Ok(()));
    assert_eq!(m.get_memory_u16_signed(2), Ok(0x7FFF));
    assert_eq!(m.get_memory_u16_signed(2).unwrap() as u16 as i16, 32767);
    assert_eq!(m.set_memory_u8(4, 0x80), Ok(()));
    assert_eq!(m.get_memory_u8_signed(4), Ok(0x180));
    assert_eq!(m.get_memory_u8_signed(4).unwrap() as u8 as i8, -128);
    assert_eq!(m.set_memory_u8(5, 0x7F), Ok(()));
    assert_eq!(m.get_memory_u8_signed(5), Ok(0x7F));
    assert_eq!(m.get_memory_u8_signed(5).unwrap() as u8 as i8, 127);
}

#[test]
fn boundary_access() {
    let cap = 64;
    let mut m = Memory::new(cap);
    // The last full word succeeds...
    assert_eq!(m.set_memory(cap - 4, 0xCAFEBABE), Ok(()));
    assert_eq!(m.get_memory(cap - 4), Ok(0xCAFEBABE));
    // ...and one byte past it fails with the out-of-bounds fault.
    assert_eq!(
        m.get_memory(cap - 3),
        Err(RuntimeError::OutOfBoundsMemoryAccess { address: (cap - 3) as u64, width: 4 })
    );
    assert_eq!(
        m.set_memory(cap - 3, 1),
        Err(RuntimeError::OutOfBoundsMemoryAccess { address: (cap - 3) as u64, width: 4 })
    );
    assert_eq!(
        m.get_memory_u16(cap - 1),
        Err(RuntimeError::OutOfBoundsMemoryAccess { address: (cap - 1) as u64, width: 2 })
    );
    assert_eq!(
        m.get_memory_u8(cap),
        Err(RuntimeError::OutOfBoundsMemoryAccess { address: cap as u64, width: 1 })
    );
    assert_eq!(
        m.get_memory_u16_signed(cap - 1),
        Err(RuntimeError::OutOfBoundsMemoryAccess { address: (cap - 1) as u64, width: 2 })
    );
    assert_eq!(
        m.get_memory_u8_signed(cap),
        Err(RuntimeError::OutOfBoundsMemoryAccess { address: cap as u64, width: 1 })
    );
    assert_eq!(
        m.set_memory_u16(cap - 1, 0),
        Err(RuntimeError::OutOfBoundsMemoryAccess { address: (cap - 1) as u64, width: 2 })
    );
    assert_eq!(
        m.set_memory_u8(cap, 0),
        Err(RuntimeError::OutOfBoundsMemoryAccess { address: cap as u64, width: 1 })
    );
}

#[test]
fn failed_write_leaves_memory_unchanged() {
    let mut m = Memory::new(8);
    assert_eq!(m.set_memory(0, 0x99999999), Ok(()));
    assert!(m.set_memory(6, 0x12345678).is_err());
    assert_eq!(m.get_memory(0), Ok(0x99999999));
    assert_eq!(m.get_memory_u8(6), Ok(1));
}

#[test]
fn memory_self_check() {
    assert!(test_memory());
}
