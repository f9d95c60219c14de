use lux_vm::vm::{VmError, VM};

fn get_test_vm() -> VM {
    VM::default()
}

#[test]
fn set_u8_heap() {
    let mut test_vm = get_test_vm();

    test_vm.heap = vec![0, 0, 0, 0, 0, 69];
    assert_eq!(test_vm.set_heap_u8(1, 8), Ok(()));

    assert_eq!(test_vm.heap, vec![0, 8, 0, 0, 0, 69]);

    assert_eq!(test_vm.fetch_heap_u32(1), Ok(8));
}

#[test]
fn set_u16_heap() {
    let mut test_vm = get_test_vm();

    test_vm.heap = vec![0, 0, 0, 0, 0, 69];
    assert_eq!(test_vm.set_heap_u16(1, 257), Ok(()));

    assert_eq!(test_vm.heap, vec![0, 1, 1, 0, 0, 69]);

    assert_eq!(test_vm.fetch_heap_u32(1), Ok(257));
}

#[test]
fn set_u32_heap() {
    let mut test_vm = get_test_vm();

    test_vm.heap = vec![0, 0, 0, 0, 0, 69];
    assert_eq!(test_vm.set_heap_u32(1, 500), Ok(()));

    assert_eq!(test_vm.heap, vec![0, 244, 1, 0, 0, 69]);

    assert_eq!(test_vm.fetch_heap_u32(1), Ok(500));
}

#[test]
fn set_u64_heap() {
    let mut test_vm = get_test_vm();

    test_vm.heap = vec![0, 0, 0, 0, 0, 0, 0, 0, 0, 69];
    assert_eq!(test_vm.set_heap_u64(1, 2162110581051415215), Ok(()));

    assert_eq!(test_vm.heap, vec![0, 175, 218, 174, 60, 30, 92, 1, 30, 69]);

    assert_eq!(test_vm.fetch_heap_u64(1), Ok(2162110581051415215u64));
}

#[test]
fn heap_bytes_round_trip() {
    let mut vm = get_test_vm();
    vm.heap = vec![7; 4];
    assert_eq!(vm.fetch_heap_u8(3), Ok(7));
    assert_eq!(vm.set_heap_u8(3, 200), Ok(()));
    assert_eq!(vm.fetch_heap_u8(3), Ok(200));
    assert_eq!(vm.heap, vec![7, 7, 7, 200]);
}

#[test]
fn heap_words_round_trip_at_every_offset() {
    for offset in 0..8usize {
        let mut vm = get_test_vm();
        vm.heap = vec![0xAA; 16];

        assert_eq!(vm.set_heap_u16(offset, 0xBEEF), Ok(()));
        assert_eq!(vm.fetch_heap_u16(offset), Ok(0xBEEF));
        assert_eq!(vm.heap[offset], 0xEF);
        assert_eq!(vm.heap[offset + 1], 0xBE);

        assert_eq!(vm.set_heap_u32(offset, 0xDEAD_BEEF), Ok(()));
        assert_eq!(vm.fetch_heap_u32(offset), Ok(0xDEAD_BEEF));

        assert_eq!(vm.set_heap_u64(offset, 0x0123_4567_89AB_CDEF), Ok(()));
        assert_eq!(vm.fetch_heap_u64(offset), Ok(0x0123_4567_89AB_CDEF));

        for i in 0..16usize {
            if i < offset || i >= offset + 8 {
                assert_eq!(vm.heap[i], 0xAA);
            }
        }
        assert_eq!(vm.heap.len(), 16);
    }
}

#[test]
fn heap_extremes_round_trip() {
    let mut vm = get_test_vm();
    vm.heap = vec![0; 8];
    assert_eq!(vm.set_heap_u64(0, u64::MAX), Ok(()));
    assert_eq!(vm.heap, vec![255; 8]);
    assert_eq!(vm.fetch_heap_u64(0), Ok(u64::MAX));
    assert_eq!(vm.fetch_heap_u32(4), Ok(u32::MAX));
    assert_eq!(vm.fetch_heap_u16(6), Ok(u16::MAX));
    assert_eq!(vm.set_heap_u32(2, 0), Ok(()));
    assert_eq!(vm.heap, vec![255, 255, 0, 0, 0, 0, 255, 255]);
}

#[test]
fn heap_access_out_of_bounds_is_an_error() {
    let mut vm = get_test_vm();
    vm.heap = vec![1, 2, 3, 4, 5, 6, 7, 8];

    assert_eq!(vm.fetch_heap_u8(8), Err(VmError::HeapOutOfBounds));
    assert_eq!(vm.fetch_heap_u16(7), Err(VmError::HeapOutOfBounds));
    assert_eq!(vm.fetch_heap_u32(5), Err(VmError::HeapOutOfBounds));
    assert_eq!(vm.fetch_heap_u64(1), Err(VmError::HeapOutOfBounds));
    assert_eq!(vm.fetch_heap_u64(usize::MAX), Err(VmError::HeapOutOfBounds));
    assert_eq!(vm.set_heap_u8(8, 0), Err(VmError::HeapOutOfBounds));
    assert_eq!(vm.set_heap_u16(7, 0), Err(VmError::HeapOutOfBounds));
    assert_eq!(vm.set_heap_u32(5, 0), Err(VmError::HeapOutOfBounds));
    assert_eq!(vm.set_heap_u64(1, 0), Err(VmError::HeapOutOfBounds));
    assert_eq!(vm.heap, vec![1, 2, 3, 4, 5, 6, 7, 8]);

    assert_eq!(vm.fetch_heap_u64(0), Ok(0x0807_0605_0403_0201));
    assert_eq!(vm.fetch_heap_u32(4), Ok(0x0807_0605));
    assert_eq!(vm.fetch_heap_u16(6), Ok(0x0807));
    assert_eq!(vm.fetch_heap_u8(7), Ok(8));
}

#[test]
fn an_empty_heap_holds_nothing() {
    let mut vm = get_test_vm();
    assert_eq!(vm.fetch_heap_u8(0), Err(VmError::HeapOutOfBounds));
    assert_eq!(vm.set_heap_u8(0, 1), Err(VmError::HeapOutOfBounds));
    assert_eq!(vm.heap.len(), 0);
}

#[test]
fn read_u8_walks_the_program() {
    let mut vm = get_test_vm();
    vm.program = vec![10, 20];
    assert_eq!(vm.read_u8(), Ok(10));
    assert_eq!(vm.pc, 1);
    assert_eq!(vm.read_u8(), Ok(20));
    assert_eq!(vm.pc, 2);
    assert_eq!(vm.read_u8(), Err(VmError::ProgramOutOfBounds));
    assert_eq!(vm.pc, 2);
}

#[test]
fn read_u16_is_little_endian() {
    let mut vm = get_test_vm();
    vm.program = vec![0xF4, 0x01, 0x34, 0x12, 0xFF];
    assert_eq!(vm.read_u16(), Ok(500));
    assert_eq!(vm.pc, 2);
    assert_eq!(vm.read_u16(), Ok(0x1234));
    assert_eq!(vm.pc, 4);
    assert_eq!(vm.read_u16(), Err(VmError::ProgramOutOfBounds));
    assert_eq!(vm.pc, 4);
    assert_eq!(vm.read_u8(), Ok(0xFF));
    assert_eq!(vm.read_u16(), Err(VmError::ProgramOutOfBounds));
}
