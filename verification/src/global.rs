//! The bridge to a global allocator.
//!
//! A global allocator has to exist before the program starts, and the system
//! table is known only once it runs. A `Bridge` is the part that exists from
//! the start: one slot, empty at first, to which an allocator is attached
//! when there is one. While an allocator is attached, requests for memory
//! that reach the bridge are its to serve.
//!
//! The slot holds one word: `EMPTY`, or the handle of the attached allocator,
//! which is any word but `EMPTY` by which the caller finds the allocator
//! again, such as its address. The slot changes by compare-and-exchange
//! alone, so of any number of attempts to attach one succeeds.

use vstd::prelude::*;
use std::sync::atomic::AtomicUsize;
use std::sync::atomic::Ordering;
use crate::allocator::AllocError;

verus! {

/// The word in the slot of a bridge to which nothing is attached.
pub const EMPTY: usize = 0;

/// What a compare-and-exchange of `current` for `new` leaves in a slot that
/// holds `slot`.
pub open spec fn exchanged(slot: usize, current: usize, new: usize) -> usize {
    if slot == current {
        new
    } else {
        slot
    }
}

/// What a compare-and-exchange of `current` for `new` returns on a slot that
/// holds `slot`: the word found, as `Ok` where it was `current` and the slot
/// now holds `new`, as `Err` where it was not and the slot is unchanged.
pub open spec fn exchange_result(slot: usize, current: usize, new: usize) -> Result<usize, usize> {
    if slot == current {
        Ok(slot)
    } else {
        Err(slot)
    }
}

/// The slot after an attempt to attach `allocator`.
pub open spec fn after_attach(slot: usize, allocator: usize) -> usize {
    exchanged(slot, EMPTY, allocator)
}

/// Whether an attempt to attach to a slot that holds `slot` succeeds.
pub open spec fn attach_succeeds(slot: usize, allocator: usize) -> bool {
    exchange_result(slot, EMPTY, allocator) is Ok
}

/// The slot after the attachment of `allocator` has been released.
pub open spec fn after_release(slot: usize, allocator: usize) -> usize {
    exchanged(slot, allocator, EMPTY)
}

/// Whether the release of the attachment of `allocator` finds the slot as
/// the attachment left it.
pub open spec fn release_succeeds(slot: usize, allocator: usize) -> bool {
    exchange_result(slot, allocator, EMPTY) is Ok
}

/// The slot after attempts to attach each of `allocators`, in this order.
pub open spec fn after_attempts(slot: usize, allocators: Seq<usize>) -> usize
    decreases allocators.len(),
{
    if allocators.len() == 0 {
        slot
    } else {
        after_attempts(after_attach(slot, allocators[0]), allocators.skip(1))
    }
}

/// Whether, of attempts to attach each of `allocators` in this order to a
/// slot that holds `slot`, the one at index `i` succeeds.
pub open spec fn attempt_succeeds(slot: usize, allocators: Seq<usize>, i: int) -> bool {
    attach_succeeds(after_attempts(slot, allocators.take(i)), allocators[i])
}

/// The allocator that serves a request which finds `slot` in the slot.
pub open spec fn serving(slot: usize) -> Option<usize> {
    if slot == EMPTY {
        None
    } else {
        Some(slot)
    }
}

/// Once something is attached, further attempts to attach change nothing.
pub proof fn lemma_attached_stays(slot: usize, allocators: Seq<usize>)
    requires
        slot != EMPTY,
    ensures
        after_attempts(slot, allocators) == slot,
    decreases allocators.len(),
{
    if allocators.len() > 0 {
        lemma_attached_stays(slot, allocators.skip(1));
    }
}

/// Of any number of attempts to attach to an empty slot, in whatever order
/// they take effect, exactly one succeeds: the first. Its allocator is the
/// one attached afterwards. Once that attachment is released the slot is
/// empty again, and the next attempt to attach succeeds.
pub proof fn lemma_one_attachment(allocators: Seq<usize>, next: usize)
    requires
        allocators.len() > 0,
        forall|i: int| 0 <= i < allocators.len() ==> allocators[i] != EMPTY,
    ensures
        forall|i: int|
            0 <= i < allocators.len() ==> (#[trigger] attempt_succeeds(EMPTY, allocators, i) <==> i
                == 0),
        after_attempts(EMPTY, allocators) == allocators[0],
        serving(after_attempts(EMPTY, allocators)) == Some(allocators[0]),
        release_succeeds(after_attempts(EMPTY, allocators), allocators[0]),
        after_release(after_attempts(EMPTY, allocators), allocators[0]) == EMPTY,
        attach_succeeds(after_release(after_attempts(EMPTY, allocators), allocators[0]), next),
{
    let first = allocators[0];
    lemma_attached_stays(first, allocators.skip(1));
    assert forall|i: int| 0 <= i < allocators.len() implies (#[trigger] attempt_succeeds(
        EMPTY,
        allocators,
        i,
    ) <==> i == 0) by {
        let earlier = allocators.take(i);
        if i > 0 {
            assert(earlier[0] == first);
            lemma_attached_stays(first, earlier.skip(1));
        }
    }
}

/// Tells whether an attempt to attach succeeded, from what the
/// compare-and-exchange of `EMPTY` for the allocator returned.
pub fn attach_outcome(exchange: Result<usize, usize>) -> (attached: Option<()>)
    ensures
        attached is Some <==> exchange is Ok,
{
    match exchange {
        Ok(_) => Some(()),
        Err(_) => None,
    }
}

/// Tells whether a release found the slot as the attachment left it, from
/// what the compare-and-exchange of the allocator for `EMPTY` returned.
/// Anything else means that the slot was changed behind the attachment's back.
pub fn release_outcome(exchange: Result<usize, usize>) -> (released: bool)
    ensures
        released <==> exchange is Ok,
{
    match exchange {
        Ok(_) => true,
        Err(_) => false,
    }
}

/// The allocator that serves a request which finds `slot` in the slot, or
/// nothing where the slot is empty: then no allocator is to be touched.
pub fn serving_allocator(slot: usize) -> (allocator: Option<usize>)
    ensures
        allocator == serving(slot),
{
    if slot == EMPTY {
        None
    } else {
        Some(slot)
    }
}

/// The address that a global allocation returns for what the attached
/// allocator made of the request, or for `None` where nothing was attached:
/// the block's address, and null for every failure.
pub fn global_address(served: Option<Result<usize, AllocError>>) -> (ptr: usize)
    ensures
        ptr == match served {
            Some(Ok(address)) => address,
            _ => 0,
        },
{
    match served {
        Some(Ok(address)) => address,
        _ => 0,
    }
}

/// The slot to which an allocator is attached.
pub struct Bridge {
    attachment: AtomicUsize,
}

/// An attachment of an allocator to a bridge. It is the only thing that may
/// empty the slot again, by `release`; an attachment that is dropped without
/// it leaves the allocator attached.
#[must_use]
pub struct Attachment<'bridge> {
    allocator: usize,
    bridge: &'bridge Bridge,
}

impl Bridge {
    /// A bridge with nothing attached. Every request that reaches it fails
    /// until an allocator is attached.
    pub fn new() -> (bridge: Bridge) {
        Bridge { attachment: AtomicUsize::new(EMPTY) }
    }

    /// Attempts to attach `ptr`: a compare-and-exchange of `EMPTY` for `ptr`.
    /// It stores with release ordering, so that what was written to the
    /// allocator before is seen by whoever finds it in the slot. A failed
    /// attempt orders nothing.
    pub fn raw_attach(&self, ptr: usize) -> (attached: Option<()>) {
        attach_outcome(
            self.attachment.compare_exchange(EMPTY, ptr, Ordering::Release, Ordering::Relaxed),
        )
    }

    /// Empties the slot if it holds `ptr`: a compare-and-exchange of `ptr`
    /// for `EMPTY`. The result is false where the slot held something else,
    /// and the slot is then left as it was.
    pub fn raw_detach(&self, ptr: usize) -> (released: bool) {
        release_outcome(
            self.attachment.compare_exchange(ptr, EMPTY, Ordering::Relaxed, Ordering::Relaxed),
        )
    }

    /// Attempts to attach the allocator with the handle `allocator`. Where
    /// the slot was empty the allocator is attached from now on, and the
    /// attachment returned stands for that. Where something was attached
    /// already the result is `None` and nothing has changed.
    pub fn attach<'bridge>(&'bridge self, allocator: usize) -> (attachment: Option<
        Attachment<'bridge>,
    >)
        requires
            allocator != EMPTY,
        ensures
            attachment matches Some(a) ==> a.allocator() == allocator && a.bridge() == self,
    {
        match self.raw_attach(allocator) {
            None => None,
            Some(()) => Some(Attachment { allocator, bridge: self }),
        }
    }

    /// The allocator that serves a request which reaches the bridge now, or
    /// nothing where none is attached. The slot is read with acquire
    /// ordering.
    pub fn serving(&self) -> (allocator: Option<usize>)
        ensures
            allocator matches Some(handle) ==> handle != EMPTY,
    {
        serving_allocator(self.attachment.load(Ordering::Acquire))
    }
}

impl<'bridge> Attachment<'bridge> {
    /// The handle of the attached allocator.
    pub closed spec fn spec_allocator(&self) -> usize {
        self.allocator
    }

    /// The bridge that the allocator is attached to.
    pub closed spec fn spec_bridge(&self) -> &'bridge Bridge {
        self.bridge
    }

    /// The handle of the attached allocator.
    #[verifier::when_used_as_spec(spec_allocator)]
    pub fn allocator(&self) -> (allocator: usize)
        ensures
            allocator == self.spec_allocator(),
    {
        self.allocator
    }

    /// The bridge that the allocator is attached to.
    #[verifier::when_used_as_spec(spec_bridge)]
    pub fn bridge(&self) -> (bridge: &'bridge Bridge)
        ensures
            bridge == self.spec_bridge(),
    {
        self.bridge
    }

    /// Ends the attachment: empties the slot if it still holds the allocator.
    /// The result is false where it held something else, which only happens
    /// where the slot was changed by other means than its attachment.
    pub fn release(self) -> (released: bool) {
        self.bridge.raw_detach(self.allocator)
    }
}

} // verus!
