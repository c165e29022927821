use awwasm_runtime::error::AwwasmTrap;
use awwasm_runtime::memory::{AwwasmMemInst, AwwasmMemoryType, PAGE_SIZE};

#[test]
fn test_memory_bounds_checking() {
    let mem = AwwasmMemInst::new(AwwasmMemoryType::new(1, None));

    // Valid read at the end of page
    assert!(mem.read(65532, 4).is_ok());

    // Out of bounds read
    assert!(mem.read(65533, 4).is_err());
    assert!(mem.read(65536, 1).is_err());
}

#[test]
fn test_memory_zero_size_access_at_end() {
    let mem = AwwasmMemInst::new(AwwasmMemoryType::new(1, None));
    assert!(mem.read(65536, 0).is_ok());
    assert_eq!(mem.read(65536, 0).unwrap(), &[] as &[u8]);
}

#[test]
fn test_memory_bounds_error_fields() {
    let mem = AwwasmMemInst::new(AwwasmMemoryType::new(1, None));
    let err = mem.read(65533, 4).unwrap_err();
    assert_eq!(
        err,
        AwwasmTrap::MemoryOutOfBounds { offset: 65533, size: 4, memory_size: 65536 }
    );
    // An end that overflows u32 is out of bounds, not wrapped.
    let err = mem.read(u32::MAX, 2).unwrap_err();
    assert_eq!(
        err,
        AwwasmTrap::MemoryOutOfBounds { offset: u32::MAX, size: 2, memory_size: 65536 }
    );
}

#[test]
fn test_memory_grow_and_alignment() {
    let mut mem = AwwasmMemInst::new(AwwasmMemoryType::new(1, Some(3)));
    assert_eq!(mem.size_pages(), 1);
    assert_eq!(mem.size_bytes(), PAGE_SIZE);
    assert_eq!(mem.grow(1), Some(1));
    assert_eq!(mem.size_pages(), 2);
    assert_eq!(mem.size_bytes() % PAGE_SIZE, 0);
    // Growth past the declared maximum is refused and changes nothing.
    assert_eq!(mem.grow(2), None);
    assert_eq!(mem.size_pages(), 2);
    assert_eq!(mem.grow(1), Some(2));
    assert_eq!(mem.size_bytes(), 3 * PAGE_SIZE);
    assert_eq!(mem.size_bytes() % PAGE_SIZE, 0);
}

#[test]
fn test_memory_grow_ceiling() {
    let mut mem = AwwasmMemInst::new(AwwasmMemoryType::new(0, None));
    // Past the 2^16-page ceiling of the 32-bit memory model.
    assert_eq!(mem.grow(65537), None);
    assert_eq!(mem.size_pages(), 0);
    // Growth that overflows the 32-bit page count is refused too.
    assert_eq!(mem.grow(u32::MAX), None);
}

#[test]
fn test_memory_grow_zero_fills() {
    let mut mem = AwwasmMemInst::new(AwwasmMemoryType::new(0, None));
    assert_eq!(mem.grow(1), Some(0));
    let bytes = mem.read(0, 65536).unwrap();
    assert!(bytes.iter().all(|&b| b == 0));
}

#[test]
fn test_memory_u8_round_trip() {
    let mut mem = AwwasmMemInst::new(AwwasmMemoryType::new(1, None));
    mem.write_u8(7, 0xAB).unwrap();
    assert_eq!(mem.read_u8(7).unwrap(), 0xAB);
    assert_eq!(mem.read_u8(6).unwrap(), 0);
    assert!(mem.write_u8(65536, 1).is_err());
}

#[test]
fn test_memory_i32_round_trip() {
    let mut mem = AwwasmMemInst::new(AwwasmMemoryType::new(1, None));
    mem.write_i32(12, -123456789).unwrap();
    assert_eq!(mem.read_i32(12).unwrap(), -123456789);
    // Little-endian layout.
    mem.write_i32(0, 0x0403_0201).unwrap();
    assert_eq!(mem.read_u8(0).unwrap(), 0x01);
    assert_eq!(mem.read_u8(1).unwrap(), 0x02);
    assert_eq!(mem.read_u8(2).unwrap(), 0x03);
    assert_eq!(mem.read_u8(3).unwrap(), 0x04);
}

#[test]
fn test_memory_i64_round_trip() {
    let mut mem = AwwasmMemInst::new(AwwasmMemoryType::new(1, None));
    mem.write_i64(8, -987654321987654321i64).unwrap();
    assert_eq!(mem.read_i64(8).unwrap(), -987654321987654321i64);
    assert!(mem.write_i64(65529, 1).is_err());
}

#[test]
fn test_memory_f32_round_trip() {
    let mut mem = AwwasmMemInst::new(AwwasmMemoryType::new(1, None));
    let v = 3.14f32;
    mem.write_f32(16, v.to_bits()).unwrap();
    assert_eq!(f32::from_bits(mem.read_f32(16).unwrap()), v);
    // Bit equality holds even for NaN payloads.
    let nan_bits = 0x7FC0_0123u32;
    mem.write_f32(20, nan_bits).unwrap();
    assert_eq!(mem.read_f32(20).unwrap(), nan_bits);
}

#[test]
fn test_memory_f64_round_trip() {
    let mut mem = AwwasmMemInst::new(AwwasmMemoryType::new(1, None));
    let v = -2.718281828459045f64;
    mem.write_f64(24, v.to_bits()).unwrap();
    assert_eq!(f64::from_bits(mem.read_f64(24).unwrap()), v);
}

#[test]
fn test_memory_fill() {
    let mut mem = AwwasmMemInst::new(AwwasmMemoryType::new(1, None));
    mem.fill(10, 0x5A, 4).unwrap();
    assert_eq!(mem.read(9, 6).unwrap(), &[0, 0x5A, 0x5A, 0x5A, 0x5A, 0]);
    assert!(mem.fill(65534, 1, 3).is_err());
}

#[test]
fn test_memory_copy_within_disjoint() {
    let mut mem = AwwasmMemInst::new(AwwasmMemoryType::new(1, None));
    mem.write(0, &[1, 2, 3, 4]).unwrap();
    mem.copy_within(100, 0, 4).unwrap();
    assert_eq!(mem.read(100, 4).unwrap(), &[1, 2, 3, 4]);
}

#[test]
fn test_memory_copy_within_overlap() {
    let mut mem = AwwasmMemInst::new(AwwasmMemoryType::new(1, None));
    mem.write(0, &[1, 2, 3, 4, 5, 6]).unwrap();
    // Overlapping forward copy must behave like a memmove.
    mem.copy_within(2, 0, 4).unwrap();
    assert_eq!(mem.read(0, 6).unwrap(), &[1, 2, 1, 2, 3, 4]);

    let mut mem2 = AwwasmMemInst::new(AwwasmMemoryType::new(1, None));
    mem2.write(0, &[1, 2, 3, 4, 5, 6]).unwrap();
    // Overlapping backward copy.
    mem2.copy_within(0, 2, 4).unwrap();
    assert_eq!(mem2.read(0, 6).unwrap(), &[3, 4, 5, 6, 5, 6]);
}

#[test]
fn test_memory_copy_within_bounds() {
    let mut mem = AwwasmMemInst::new(AwwasmMemoryType::new(1, None));
    let err = mem.copy_within(0, 65530, 10).unwrap_err();
    assert_eq!(
        err,
        AwwasmTrap::MemoryOutOfBounds { offset: 65530, size: 10, memory_size: 65536 }
    );
    let err = mem.copy_within(65530, 0, 10).unwrap_err();
    assert_eq!(
        err,
        AwwasmTrap::MemoryOutOfBounds { offset: 65530, size: 10, memory_size: 65536 }
    );
}
