//! An allocator on the pool service of one system table.
//!
//! An `Allocator` names the system table whose boot services are called and
//! the kind of memory that is asked of them. It decides what each request for
//! memory comes to; the calls of the boot services themselves are made by
//! whoever holds the system table.

use vstd::prelude::*;
use r_efi::efi::MemoryType;
use crate::layout::Layout;
use crate::pool::PoolReply;
use crate::pool::PoolRequest;
use crate::raw::aligned_address;
use crate::raw::delivered;
use crate::raw::header_len;
use crate::raw::is_aligned;
use crate::raw::native_address;
use crate::raw::placed;
use crate::raw::request_size;

verus! {

/// The request for memory could not be served.
#[derive(Clone, Copy, Debug, PartialEq, Eq)]
pub struct AllocError;

/// What a request for memory comes to before the pool is called.
#[derive(Clone, Copy, Debug, PartialEq, Eq)]
pub enum AllocStep {
    /// The request is settled without the pool: with the address of the
    /// block, or with a refusal.
    Done(Result<usize, AllocError>),
    /// The pool has to be called as given here, and its reply decides.
    Ask(PoolRequest),
}

/// The pool service of one system table, asked for one kind of memory.
#[derive(Clone, Copy, Debug, PartialEq, Eq)]
pub struct Allocator {
    system_table: usize,
    memory_type: MemoryType,
}

impl Allocator {
    /// The address of the system table.
    pub closed spec fn spec_system_table(&self) -> usize {
        self.system_table
    }

    /// The kind of memory that is asked of the pool.
    pub closed spec fn spec_memory_type(&self) -> MemoryType {
        self.memory_type
    }

    /// What `allocate` decides for `layout`.
    pub open spec fn spec_allocate(&self, layout: Layout) -> AllocStep {
        let wanted = request_size(layout.size() as int, layout.align() as int);
        if wanted > usize::MAX {
            AllocStep::Done(Err(AllocError))
        } else if layout.size() == 0 {
            AllocStep::Done(Ok(layout.align()))
        } else {
            AllocStep::Ask(PoolRequest { memory_type: self.memory_type(), size: wanted as usize })
        }
    }

    /// The number of bytes in front of a block allocated for `layout` that
    /// `deallocate` reads: the marker's where there is one, and none for a
    /// block of no bytes.
    pub open spec fn spec_header_len(layout: Layout) -> nat {
        if layout.size() == 0 {
            0
        } else {
            header_len(layout.align())
        }
    }

    /// An allocator on the system table at the address `st`, for memory of
    /// the kind `memtype`. The system table has to stay valid for as long as
    /// the allocator, or a copy of it, is in use.
    pub fn from_system_table(st: usize, memtype: MemoryType) -> (allocator: Allocator)
        ensures
            allocator.system_table() == st,
            allocator.memory_type() == memtype,
    {
        Allocator { system_table: st, memory_type: memtype }
    }

    /// The address of the system table.
    #[verifier::when_used_as_spec(spec_system_table)]
    pub fn system_table(&self) -> (st: usize)
        ensures
            st == self.spec_system_table(),
    {
        self.system_table
    }

    /// The kind of memory that is asked of the pool.
    #[verifier::when_used_as_spec(spec_memory_type)]
    pub fn memory_type(&self) -> (memtype: MemoryType)
        ensures
            memtype == self.spec_memory_type(),
    {
        self.memory_type
    }

    /// The call of `AllocatePool()` that serves `layout`, which asks for at
    /// least one byte.
    pub fn alloc_request(self, layout: Layout) -> (request: PoolRequest)
        requires
            layout.size() > 0,
            request_size(layout.size() as int, layout.align() as int) <= usize::MAX,
        ensures
            request.memory_type == self.memory_type(),
            request.size == request_size(layout.size() as int, layout.align() as int),
    {
        crate::raw::alloc_request(layout, self.memory_type)
    }

    /// The address of the block once the pool has answered the call that
    /// `alloc_request` named, or null where the pool delivered no memory.
    /// `block` holds the bytes that the pool delivered.
    pub fn alloc_block(self, layout: Layout, reply: PoolReply, block: &mut [u8]) -> (ptr: usize)
        requires
            layout.size() > 0,
            reply.granted() ==> delivered(layout, reply.address, old(block)@.len()),
        ensures
            !reply.granted() ==> ptr == 0 && final(block)@ == old(block)@,
            reply.granted() ==> {
                &&& ptr == aligned_address(reply.address as int, layout.align() as int)
                &&& final(block)@ == placed(old(block)@, reply.address, layout.align())
                &&& ptr != 0
                &&& is_aligned(ptr as int, layout.align() as int)
                &&& reply.address + header_len(layout.align()) <= ptr
                &&& ptr + layout.size() <= reply.address + old(block)@.len()
            },
    {
        crate::raw::alloc_block(layout, reply, block)
    }

    /// The address to hand to `FreePool()` in order to release the block at
    /// `ptr`, which this allocator allocated for `layout`. `before` holds
    /// the `header_size(layout.align())` bytes in front of the block, or more.
    pub fn dealloc(self, ptr: usize, layout: Layout, before: &[u8]) -> (native: usize)
        requires
            before@.len() >= header_len(layout.align()),
        ensures
            native == native_address(ptr, layout.align(), before@),
    {
        crate::raw::dealloc(ptr, layout, before)
    }

    /// Decides what a request for memory comes to.
    ///
    /// A request that the pool could only serve with more bytes than an
    /// address can count is refused. A request for no bytes is settled with
    /// an address that is not null and aligned as asked, and the pool is not
    /// called. Every other request goes to the pool, widened as
    /// `align_request` says; `allocate_block` takes the pool's reply.
    pub fn allocate(&self, layout: Layout) -> (step: AllocStep)
        ensures
            step == self.spec_allocate(layout),
            layout.size() == 0 ==> step is Done,
            step matches AllocStep::Done(Ok(address)) ==> address != 0 && is_aligned(
                address as int,
                layout.align() as int,
            ),
    {
        if crate::raw::checked_align_request(layout.size(), layout.align()).is_none() {
            AllocStep::Done(Err(AllocError))
        } else if layout.size() == 0 {
            AllocStep::Done(Ok(layout.dangling()))
        } else {
            AllocStep::Ask(crate::raw::alloc_request(layout, self.memory_type))
        }
    }

    /// Settles a request that `allocate` sent to the pool, once the pool has
    /// answered. `block` holds the bytes that the pool delivered.
    ///
    /// A reply without memory is a refusal, and nothing is written. Else the
    /// block is placed in the memory delivered, as `align_block` says, and its
    /// address is the result.
    pub fn allocate_block(&self, layout: Layout, reply: PoolReply, block: &mut [u8]) -> (result:
        Result<usize, AllocError>)
        requires
            layout.size() > 0,
            reply.granted() ==> delivered(layout, reply.address, old(block)@.len()),
        ensures
            result is Ok <==> reply.granted(),
            !reply.granted() ==> final(block)@ == old(block)@,
            result matches Ok(ptr) ==> {
                &&& ptr == aligned_address(reply.address as int, layout.align() as int)
                &&& final(block)@ == placed(old(block)@, reply.address, layout.align())
                &&& ptr != 0
                &&& is_aligned(ptr as int, layout.align() as int)
                &&& reply.address + header_len(layout.align()) <= ptr
                &&& ptr + layout.size() <= reply.address + old(block)@.len()
            },
    {
        let ptr = crate::raw::alloc_block(layout, reply, block);
        if ptr == 0 {
            Err(AllocError)
        } else {
            Ok(ptr)
        }
    }

    /// The number of bytes in front of a block allocated for `layout` that
    /// `deallocate` reads.
    pub fn header_size(layout: Layout) -> (len: usize)
        ensures
            len == Self::spec_header_len(layout),
            len <= crate::raw::POOL_ALIGNMENT,
    {
        if layout.size() == 0 {
            0
        } else {
            crate::raw::header_size(layout.align())
        }
    }

    /// The address to hand to `FreePool()` in order to release the block at
    /// `ptr`, which this allocator allocated for `layout`, or nothing where
    /// `layout` asks for no bytes: such a block was never the pool's.
    /// `before` holds the `header_size(layout)` bytes in front of the block,
    /// or more.
    pub fn deallocate(&self, ptr: usize, layout: Layout, before: &[u8]) -> (native: Option<usize>)
        requires
            before@.len() >= Self::spec_header_len(layout),
        ensures
            layout.size() == 0 ==> native is None,
            layout.size() > 0 ==> native == Some(
                native_address(ptr, layout.align(), before@) as usize,
            ),
    {
        if layout.size() != 0 {
            Some(crate::raw::dealloc(ptr, layout, before))
        } else {
            None
        }
    }
}

} // verus!
