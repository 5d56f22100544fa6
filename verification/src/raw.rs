//! Size and address arithmetic around the pool allocator.
//!
//! The pool serves a wider request than the caller made, the block is moved up
//! inside the reply until its address is aligned, and a marker in front of
//! the block remembers where the reply began:
//!
//! ```text
//! native                      native + offset
//! |  ... slack ...  | marker |  block of `size` bytes  | ... slack ... |
//! ```

use vstd::prelude::*;
use vstd::arithmetic::div_mod::lemma_fundamental_div_mod;
use vstd::arithmetic::div_mod::lemma_fundamental_div_mod_converse;
use vstd::arithmetic::div_mod::lemma_mod_mod;
use r_efi::efi::MemoryType;
use crate::layout::is_power_of_two;
use crate::layout::lemma_power_of_two_above_eight;
use crate::layout::lemma_power_of_two_up_to_eight;
use crate::layout::Layout;
use crate::marker::lemma_marker_holds_addresses;
use crate::marker::lemma_marker_round_trip;
use crate::marker::marked_address;
use crate::marker::marker_len;
use crate::marker::marker_size;
use crate::marker::read_marker;
use crate::marker::with_marker;
use crate::marker::write_marker;
use crate::pool::PoolReply;
use crate::pool::PoolRequest;

verus! {

/// The alignment that `AllocatePool()` guarantees for every block.
pub const POOL_ALIGNMENT: usize = 8;

/// The number of bytes a pool request has to ask for so that a block of
/// `size` bytes aligned to `align` can be carved out of the reply.
pub open spec fn request_size(size: int, align: int) -> int {
    if align > POOL_ALIGNMENT {
        size + align
    } else {
        size
    }
}

/// Whether `address` is a multiple of `align`.
pub open spec fn is_aligned(address: int, align: int) -> bool {
    address % align == 0
}

/// How far behind `native` the block begins: nothing where the pool's own
/// alignment is enough, else the distance to the next address that is a
/// multiple of `align`, a full `align` where `native` is one already.
pub open spec fn align_offset(native: int, align: int) -> int {
    if align > POOL_ALIGNMENT {
        align - native % align
    } else {
        0
    }
}

/// The address of the block inside a pool reply that begins at `native`.
pub open spec fn aligned_address(native: int, align: int) -> int {
    native + align_offset(native, align)
}

/// What `mem`, the bytes of a pool reply that begins at `native`, holds once
/// the block has been placed: the marker in front of the block where the
/// block was moved, and everything else as before.
pub open spec fn placed(mem: Seq<u8>, native: usize, align: usize) -> Seq<u8> {
    if align > POOL_ALIGNMENT {
        with_marker(mem, align_offset(native as int, align as int), native)
    } else {
        mem
    }
}

/// Where the pool reply began whose block stands at `user`, with `before`
/// the bytes in front of the block.
pub open spec fn native_address(user: usize, align: usize, before: Seq<u8>) -> int {
    if align > POOL_ALIGNMENT {
        marked_address(before) as int
    } else {
        user as int
    }
}

/// What has to hold of a pool reply that begins at `native` with `len` bytes
/// before a block aligned to `align` can be placed in it.
pub open spec fn can_place(native: usize, align: usize, len: nat) -> bool {
    align > POOL_ALIGNMENT ==> {
        &&& is_power_of_two(align)
        &&& native % POOL_ALIGNMENT == 0
        &&& align <= len
        &&& native + len <= usize::MAX
    }
}

/// What has to hold of the memory that the pool delivered for `layout`: it
/// begins at `native`, has `len` bytes, which are as many as were asked for,
/// lies within the addresses, and is aligned as the pool guarantees.
pub open spec fn delivered(layout: Layout, native: usize, len: nat) -> bool {
    &&& len >= request_size(layout.size() as int, layout.align() as int)
    &&& native + len <= usize::MAX
    &&& native % POOL_ALIGNMENT == 0
}

/// The number of bytes in front of a block aligned to `align` that belong to
/// this crate: the marker's, where there is one.
pub open spec fn header_len(align: usize) -> nat {
    if align > POOL_ALIGNMENT {
        marker_len()
    } else {
        0
    }
}

/// Widens a request of `size` bytes to what the pool has to deliver.
///
/// Alignments within the pool's guarantee need nothing extra. Any other
/// alignment adds `align` bytes: enough to move the block up to an aligned
/// address and to keep `POOL_ALIGNMENT` bytes free in front of it.
pub fn align_request(size: usize, align: usize) -> (adjusted: usize)
    requires
        request_size(size as int, align as int) <= usize::MAX,
    ensures
        adjusted == request_size(size as int, align as int),
        align <= POOL_ALIGNMENT ==> adjusted == size,
        align > POOL_ALIGNMENT ==> adjusted > size + POOL_ALIGNMENT,
        align > POOL_ALIGNMENT ==> adjusted > size + marker_len(),
{
    if align > POOL_ALIGNMENT {
        size + align
    } else {
        size
    }
}

/// Widens a request as `align_request` does, or reports that the widened
/// request is more than an address can count.
pub fn checked_align_request(size: usize, align: usize) -> (adjusted: Option<usize>)
    ensures
        adjusted is Some <==> request_size(size as int, align as int) <= usize::MAX,
        adjusted matches Some(n) ==> n == request_size(size as int, align as int),
{
    if align > POOL_ALIGNMENT {
        size.checked_add(align)
    } else {
        Some(size)
    }
}

/// Within the pool's own alignment nothing is adjusted: the request is not
/// widened, the block begins where the pool's reply does, nothing is written,
/// and the block's address is the one to release.
pub proof fn lemma_pool_alignment_needs_nothing(
    mem: Seq<u8>,
    before: Seq<u8>,
    address: usize,
    size: usize,
    align: usize,
)
    requires
        align <= POOL_ALIGNMENT,
    ensures
        request_size(size as int, align as int) == size,
        aligned_address(address as int, align as int) == address,
        placed(mem, address, align) == mem,
        native_address(address, align, before) == address,
{
}

/// A widened request has room for the block and, beside it, for more than a
/// marker.
pub proof fn lemma_widened_request_has_room(size: usize, align: usize)
    requires
        align > POOL_ALIGNMENT,
    ensures
        request_size(size as int, align as int) > size + marker_len(),
        marker_len() <= POOL_ALIGNMENT,
{
}

/// The block never begins less than `POOL_ALIGNMENT` bytes behind an address
/// that the pool handed out, nor more than `align`; its address is a multiple
/// of `align`, and no address in between that leaves room for a marker is.
pub proof fn lemma_align_offset(native: usize, align: usize)
    requires
        align > POOL_ALIGNMENT,
        is_power_of_two(align),
        native % POOL_ALIGNMENT == 0,
    ensures
        POOL_ALIGNMENT <= align_offset(native as int, align as int) <= align,
        is_aligned(aligned_address(native as int, align as int), align as int),
        forall|address: int|
            native + POOL_ALIGNMENT <= address < aligned_address(native as int, align as int)
                ==> !#[trigger] is_aligned(address, align as int),
{
    let n = native as int;
    let a = align as int;
    let q = n / a;
    let r = n % a;
    lemma_power_of_two_above_eight(align);
    lemma_fundamental_div_mod(n, a);
    assert(r % 8 == 0) by {
        assert(a == 8 * (a / 8));
        lemma_mod_mod(n, 8, a / 8);
    }
    assert((n + (a - r)) % a == 0) by {
        assert(n + (a - r) == (q + 1) * a + 0) by (nonlinear_arith)
            requires
                n == a * q + r,
        ;
        lemma_fundamental_div_mod_converse(n + (a - r), a, q + 1, 0);
    }
    assert forall|address: int| n + POOL_ALIGNMENT <= address < n + (a - r) implies !is_aligned(
        address,
        a,
    ) by {
        let o = address - n;
        assert(address == q * a + (r + o)) by (nonlinear_arith)
            requires
                n == a * q + r,
                o == address - n,
        ;
        lemma_fundamental_div_mod_converse(address, a, q, r + o);
    }
}

/// Releasing finds what allocating was given: where a block was placed in a
/// pool reply of at least `request_size(size, align)` bytes that begins at
/// `native`, the bytes in front of the block lead back to `native`.
pub proof fn lemma_unalign_inverts_align(mem: Seq<u8>, native: usize, size: usize, align: usize)
    requires
        is_power_of_two(align),
        native % POOL_ALIGNMENT == 0,
        mem.len() >= request_size(size as int, align as int),
        native + mem.len() <= usize::MAX,
    ensures
        can_place(native, align, mem.len()),
        native <= aligned_address(native as int, align as int) <= native + mem.len() - size,
        native_address(
            aligned_address(native as int, align as int) as usize,
            align,
            placed(mem, native, align).subrange(0, align_offset(native as int, align as int)),
        ) == native,
{
    if align > POOL_ALIGNMENT {
        lemma_align_offset(native, align);
        lemma_marker_holds_addresses();
        lemma_marker_round_trip(mem, align_offset(native as int, align as int), native);
    }
}

/// Places a block aligned to `align` in the pool reply that begins at
/// `native` and whose bytes are `block`, and returns the block's address.
///
/// Where the pool's own alignment is enough the block begins where the reply
/// does and nothing is written. Else the block begins at the first multiple
/// of `align` that leaves `POOL_ALIGNMENT` bytes in front of it, and a marker
/// that remembers `native` is stored in the bytes just in front of the block.
pub fn align_block(native: usize, align: usize, block: &mut [u8]) -> (user: usize)
    requires
        can_place(native, align, old(block)@.len()),
    ensures
        user == aligned_address(native as int, align as int),
        final(block)@ == placed(old(block)@, native, align),
        align <= POOL_ALIGNMENT ==> user == native,
        align > POOL_ALIGNMENT ==> is_aligned(user as int, align as int) && native
            + POOL_ALIGNMENT <= user <= native + align,
        align > POOL_ALIGNMENT ==> forall|address: int|
            native + POOL_ALIGNMENT <= address < user ==> !#[trigger] is_aligned(
                address,
                align as int,
            ),
{
    if align > POOL_ALIGNMENT {
        proof {
            lemma_align_offset(native, align);
            lemma_marker_holds_addresses();
        }
        let offset = align - native % align;
        write_marker(block, offset, native);
        native + offset
    } else {
        native
    }
}

/// Finds the address at which the pool reply began whose block stands at
/// `user`. `before` holds the bytes in front of the block, up to the block's
/// first byte; they are read only where the block was moved, and then hold
/// the marker that `align_block` stored.
pub fn unalign_block(user: usize, align: usize, before: &[u8]) -> (native: usize)
    requires
        align > POOL_ALIGNMENT ==> before@.len() >= marker_len(),
    ensures
        native == native_address(user, align, before@),
        align <= POOL_ALIGNMENT ==> native == user,
{
    if align > POOL_ALIGNMENT {
        read_marker(before)
    } else {
        user
    }
}

/// The number of bytes in front of a block aligned to `align` that
/// `unalign_block` reads.
pub fn header_size(align: usize) -> (len: usize)
    ensures
        len == header_len(align),
        len <= POOL_ALIGNMENT,
{
    if align > POOL_ALIGNMENT {
        marker_size()
    } else {
        0
    }
}

/// The call of `AllocatePool()` that serves `layout` with memory of the kind
/// `memory_type`. It asks for more bytes than `layout` does where the block
/// may have to be moved.
pub fn alloc_request(layout: Layout, memory_type: MemoryType) -> (request: PoolRequest)
    requires
        layout.size() > 0,
        request_size(layout.size() as int, layout.align() as int) <= usize::MAX,
    ensures
        request.memory_type == memory_type,
        request.size == request_size(layout.size() as int, layout.align() as int),
{
    PoolRequest { memory_type, size: align_request(layout.size(), layout.align()) }
}

/// The address to hand to the caller once the pool has answered the call
/// that `alloc_request` named; `block` holds the bytes that the pool
/// delivered, and is not looked at where it delivered none.
///
/// The result is null where the reply carries no memory, and nothing is
/// written then. Else it is the address of the block placed by
/// `align_block`, which lies inside the memory delivered.
pub fn alloc_block(layout: Layout, reply: PoolReply, block: &mut [u8]) -> (ptr: usize)
    requires
        layout.size() > 0,
        reply.granted() ==> delivered(layout, reply.address, old(block)@.len()),
    ensures
        !reply.granted() ==> ptr == 0 && final(block)@ == old(block)@,
        reply.granted() ==> {
            &&& ptr == aligned_address(reply.address as int, layout.align() as int)
            &&& final(block)@ == placed(old(block)@, reply.address, layout.align())
            &&& ptr != 0
            &&& is_aligned(ptr as int, layout.align() as int)
            &&& reply.address + header_len(layout.align()) <= ptr
            &&& ptr + layout.size() <= reply.address + old(block)@.len()
        },
{
    if reply.granted() {
        let align = layout.align();
        proof {
            if align <= POOL_ALIGNMENT {
                lemma_power_of_two_up_to_eight(align);
            }
        }
        align_block(reply.address, align, block)
    } else {
        0
    }
}

/// The address to hand to `FreePool()` in order to release the block at
/// `ptr`, which was allocated for `layout`, a layout of at least one byte.
/// `before` holds the `header_size(layout.align())` bytes in front of the
/// block, or more.
pub fn dealloc(ptr: usize, layout: Layout, before: &[u8]) -> (native: usize)
    requires
        before@.len() >= header_len(layout.align()),
    ensures
        native == native_address(ptr, layout.align(), before@),
{
    unalign_block(ptr, layout.align(), before)
}

} // verus!
