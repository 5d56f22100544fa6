use r_efi_alloc::layout::Layout;
use r_efi_alloc::marker::marker_size;
use r_efi_alloc::pool::PoolReply;
use r_efi_alloc::pool::PoolRequest;
use r_efi_alloc::raw::align_block;
use r_efi_alloc::raw::align_request;
use r_efi_alloc::raw::alloc_block;
use r_efi_alloc::raw::alloc_request;
use r_efi_alloc::raw::dealloc;
use r_efi_alloc::raw::header_size;
use r_efi_alloc::raw::unalign_block;
use r_efi_alloc::raw::POOL_ALIGNMENT;

#[test]
fn align() {
    // UEFI ABI specifies that allocation alignment minimum is always 8. So this can be
    // statically verified.
    assert_eq!(POOL_ALIGNMENT, 8);

    // Loop over allocation-request sizes from 0-256 and alignments from 1-128, and verify
    // that in case of overalignment there is at least space for one additional pointer to
    // store in the allocation.
    for i in 0..256 {
        for j in &[1, 2, 4, 8, 16, 32, 64, 128] {
            if *j <= 8 {
                assert_eq!(align_request(i, *j), i);
            } else {
                assert!(align_request(i, *j) > i + std::mem::size_of::<usize>());
            }
        }
    }
}

#[test]
fn align_request_adds_the_alignment_above_eight() {
    assert_eq!(align_request(100, 8), 100);
    assert_eq!(align_request(100, 16), 116);
    assert_eq!(align_request(100, 64), 164);
    assert_eq!(align_request(0, 4096), 4096);
    assert_eq!(align_request(usize::MAX, 1), usize::MAX);
    assert_eq!(align_request(usize::MAX - 16, 16), usize::MAX);
}

#[test]
fn align_request_leaves_room_for_a_marker() {
    for size in [0usize, 1, 7, 8, 100, 4096] {
        for align in [16usize, 32, 64, 128, 4096] {
            assert!(align_request(size, align) > size + marker_size());
            assert!(align_request(size, align) > size + POOL_ALIGNMENT);
        }
    }
}

#[test]
fn align_block_is_the_identity_up_to_eight() {
    for align in [1usize, 2, 4, 8] {
        let mut block = vec![0xaau8; 32];
        assert_eq!(align_block(0x1000, align, &mut block), 0x1000);
        assert_eq!(block, vec![0xaau8; 32]);
        assert_eq!(unalign_block(0x1000, align, &block[..0]), 0x1000);
        assert_eq!(unalign_block(0x1234, align, &[]), 0x1234);
    }
}

#[test]
fn align_block_moves_to_the_next_multiple() {
    let mut block = vec![0u8; 164];
    assert_eq!(align_block(0x1008, 64, &mut block), 0x1040);
    let mut block = vec![0u8; 164];
    assert_eq!(align_block(0x1038, 64, &mut block), 0x1040);
    let mut block = vec![0u8; 116];
    assert_eq!(align_block(0x1008, 16, &mut block), 0x1010);
}

#[test]
fn align_block_moves_an_aligned_address_by_the_whole_alignment() {
    let mut block = vec![0u8; 164];
    assert_eq!(align_block(0x1000, 64, &mut block), 0x1040);
    let mut block = vec![0u8; 17];
    assert_eq!(align_block(0x20, 16, &mut block), 0x30);
}

#[test]
fn align_block_stores_the_marker_in_front_of_the_block() {
    let native: usize = 0x1008;
    let mut block = vec![0xeeu8; 164];
    let user = align_block(native, 64, &mut block);
    let offset = user - native;
    assert_eq!(offset, 56);
    let width = marker_size();
    assert_eq!(width, std::mem::size_of::<usize>());
    let mut expected = vec![0xeeu8; 164];
    expected[offset - width] = 0x08;
    expected[offset - width + 1] = 0x10;
    for i in 2..width {
        expected[offset - width + i] = 0;
    }
    assert_eq!(block, expected);
}

#[test]
fn unalign_block_reads_the_marker() {
    let width = marker_size();
    let mut before = vec![0x55u8; 24];
    let at = before.len() - width;
    for i in 0..width {
        before[at + i] = 0;
    }
    before[at] = 0x78;
    before[at + 1] = 0x56;
    before[at + 2] = 0x34;
    before[at + 3] = 0x12;
    assert_eq!(unalign_block(0x9000, 16, &before), 0x12345678);
    assert_eq!(unalign_block(0x9000, 16, &before[at..]), 0x12345678);
    assert_eq!(unalign_block(0x9000, 8, &before), 0x9000);
}

#[test]
fn unalign_block_inverts_align_block() {
    for align in [1usize, 2, 4, 8, 16, 32, 64, 128, 256, 4096] {
        for size in [1usize, 3, 8, 100, 257] {
            for step in 0..40usize {
                let native = 0x10_0000 + 8 * step;
                let mut block = vec![0u8; align_request(size, align)];
                let user = align_block(native, align, &mut block);
                assert_eq!(user % align, 0);
                assert!(user >= native);
                assert!(user + size <= native + block.len());
                let offset = user - native;
                assert_eq!(unalign_block(user, align, &block[..offset]), native);
                let header = header_size(align);
                assert_eq!(unalign_block(user, align, &block[offset - header..offset]), native);
            }
        }
    }
}

#[test]
fn unalign_block_finds_the_largest_address() {
    let native = usize::MAX - 127;
    let mut block = vec![0u8; 127];
    let user = align_block(native, 64, &mut block);
    assert_eq!(user, usize::MAX - 63);
    assert_eq!(unalign_block(user, 64, &block[..64]), native);
}

#[test]
fn header_size_is_the_marker_above_eight() {
    assert_eq!(header_size(1), 0);
    assert_eq!(header_size(8), 0);
    assert_eq!(header_size(16), std::mem::size_of::<usize>());
    assert_eq!(header_size(4096), std::mem::size_of::<usize>());
}

#[test]
fn alloc_request_widens_the_request() {
    let layout = Layout::from_size_align(100, 64).unwrap();
    assert_eq!(
        alloc_request(layout, r_efi::efi::LOADER_DATA),
        PoolRequest { memory_type: r_efi::efi::LOADER_DATA, size: 164 }
    );
    let layout = Layout::from_size_align(100, 8).unwrap();
    assert_eq!(
        alloc_request(layout, r_efi::efi::BOOT_SERVICES_DATA),
        PoolRequest { memory_type: r_efi::efi::BOOT_SERVICES_DATA, size: 100 }
    );
}

#[test]
fn alloc_block_with_pool_alignment_returns_the_native_address() {
    let layout = Layout::from_size_align(100, 8).unwrap();
    let mut block = vec![0x11u8; 100];
    let reply = PoolReply { status: r_efi::efi::Status::SUCCESS.as_usize(), address: 0x2000 };
    assert_eq!(alloc_block(layout, reply, &mut block), 0x2000);
    assert_eq!(block, vec![0x11u8; 100]);
}

#[test]
fn alloc_block_aligns_and_dealloc_recovers() {
    let layout = Layout::from_size_align(100, 64).unwrap();
    let request = alloc_request(layout, r_efi::efi::LOADER_DATA);
    assert_eq!(request.size, 164);
    let native = 0x7_0008usize;
    let mut block = vec![0u8; request.size];
    let reply = PoolReply { status: r_efi::efi::Status::SUCCESS.as_usize(), address: native };
    let ptr = alloc_block(layout, reply, &mut block);
    assert_eq!(ptr, 0x7_0040);
    assert_eq!(ptr % 64, 0);
    let offset = ptr - native;
    let header = header_size(layout.align());
    assert_eq!(dealloc(ptr, layout, &block[offset - header..offset]), native);
}

#[test]
fn alloc_block_is_null_on_an_error() {
    let layout = Layout::from_size_align(100, 64).unwrap();
    let mut block = vec![0x33u8; 164];
    let reply = PoolReply {
        status: r_efi::efi::Status::OUT_OF_RESOURCES.as_usize(),
        address: 0x7_0008,
    };
    assert_eq!(alloc_block(layout, reply, &mut block), 0);
    assert_eq!(block, vec![0x33u8; 164]);
    let mut nothing: Vec<u8> = Vec::new();
    assert_eq!(alloc_block(layout, reply, &mut nothing), 0);
}

#[test]
fn alloc_block_is_null_on_a_null_address() {
    let layout = Layout::from_size_align(100, 64).unwrap();
    let mut block = vec![0x33u8; 164];
    let reply = PoolReply { status: r_efi::efi::Status::SUCCESS.as_usize(), address: 0 };
    assert_eq!(alloc_block(layout, reply, &mut block), 0);
    assert_eq!(block, vec![0x33u8; 164]);
}

#[test]
fn dealloc_with_pool_alignment_returns_the_address() {
    let layout = Layout::from_size_align(24, 4).unwrap();
    assert_eq!(dealloc(0x3000, layout, &[]), 0x3000);
}
