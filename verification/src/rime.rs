//! The shared, reference-counted heap cell.
//!
//! A [`Rime`] is one of possibly many co-owning handles to a block in a
//! [`RimeHeap`]. Each block holds a counter of type `C` next to its byte
//! payload: one contiguous `[ counter | payload ]` allocation, with the
//! counter at the block's address and the payload directly behind it. The
//! sizes and alignments such a block occupies, and the placement restriction
//! of the unpadded payload offset, are stated in the [`crate::layout`]
//! module; byte payloads have alignment one, which divides every counter
//! size, so the placement is always correct here.
//!
//! Cloning a handle increments the counter and copies the address; releasing
//! a handle decrements it, and the release that brings the counter to zero
//! deallocates the block. The heap maintains the accounting invariant that
//! every live block's counter is at least one, and a freed block never comes
//! back: every operation demands a live block, so a stale handle can do
//! nothing. As with the unique cell, destruction never runs a payload
//! destructor.

use vstd::prelude::*;
use vstd::pervasive::VecAdditionalExecFns;
use vstd::std_specs::vec::vec_index_mut;
use core::cmp::Ordering;
use crate::counter::Counter;
use crate::payload::copy_bytes;
use crate::payload::lex_cmp;
use crate::payload::lex_cmp_spec;

verus! {

/// The abstract state of one shared block: whether it is still allocated,
/// its counter's value, the payload bytes, and whether the payload's
/// destructor has been run in place.
pub struct RimeModel {
    pub live: bool,
    pub count: nat,
    pub bytes: Seq<u8>,
    pub dropped: bool,
}

impl RimeModel {
    /// A freshly allocated block holding `bytes`, with one handle.
    pub open spec fn fresh(bytes: Seq<u8>) -> RimeModel {
        RimeModel { live: true, count: 1, bytes, dropped: false }
    }

    /// The same block with one more handle recorded.
    pub open spec fn bumped(self) -> RimeModel {
        RimeModel { count: self.count + 1, ..self }
    }

    /// The same block with one handle gone, still allocated.
    pub open spec fn decremented(self) -> RimeModel {
        RimeModel { count: (self.count - 1) as nat, ..self }
    }

    /// The same block after the last handle released it: deallocated.
    pub open spec fn deallocated(self) -> RimeModel {
        RimeModel { live: false, count: 0, ..self }
    }

    /// The same block with its payload bytes replaced.
    pub open spec fn with_bytes(self, bytes: Seq<u8>) -> RimeModel {
        RimeModel { bytes, ..self }
    }

    /// The same block after its payload's destructor ran in place.
    pub open spec fn with_dropped(self) -> RimeModel {
        RimeModel { dropped: true, ..self }
    }
}

struct RimeBlock<C> {
    live: bool,
    counter: C,
    bytes: Vec<u8>,
    dropped: bool,
}

impl<C: Counter> RimeBlock<C> {
    spec fn model(&self) -> RimeModel {
        RimeModel {
            live: self.live,
            count: self.counter.count(),
            bytes: self.bytes@,
            dropped: self.dropped,
        }
    }
}

/// The allocator for shared cells with counter strategy `C`: a sequence of
/// blocks, viewed as their abstract states. Addresses are indices into this
/// sequence; a freed block keeps its address, so addresses are never reused.
pub struct RimeHeap<C: Counter> {
    blocks: Vec<RimeBlock<C>>,
}

impl<C: Counter> View for RimeHeap<C> {
    type V = Seq<RimeModel>;

    closed spec fn view(&self) -> Seq<RimeModel> {
        Seq::new(self.blocks@.len(), |i: int| self.blocks@[i].model())
    }
}

impl<C: Counter> RimeHeap<C> {
    /// Accounting invariant: as long as a block is allocated, at least one
    /// handle co-owns it, so its counter is at least one. Every operation of
    /// the library preserves this. The counter tracks the handles exactly:
    /// construction starts it at one with one handle, `clone` adds one and
    /// yields one more handle, `release` consumes one handle and subtracts
    /// one — and handles can be neither copied nor duplicated, so a live
    /// block's count is precisely the number of handles that were created
    /// for it and not yet released.
    pub open spec fn wf(self) -> bool {
        forall|i: int| #![auto] 0 <= i < self@.len() && self@[i].live ==> self@[i].count >= 1
    }

    /// An allocator with no blocks.
    pub fn new() -> (h: RimeHeap<C>)
        ensures
            h@ == Seq::<RimeModel>::empty(),
            h.wf(),
    {
        let h = RimeHeap { blocks: Vec::new() };
        proof {
            assert(h@ =~= Seq::<RimeModel>::empty());
        }
        h
    }

    /// Whether `addr` names a block that is currently allocated.
    pub fn live(&self, addr: usize) -> (l: bool)
        ensures
            l == (addr < self@.len() && self@[addr as int].live),
    {
        addr < self.blocks.len() && self.blocks[addr].live
    }

    /// Whether the payload destructor of the block at `addr` has been run in
    /// place. Release never runs it; only an explicit [`Rime::drop_inner`]
    /// does.
    pub fn dropped(&self, addr: usize) -> (d: bool)
        requires
            addr < self@.len(),
        ensures
            d == self@[addr as int].dropped,
    {
        self.blocks[addr].dropped
    }

    /// Write one byte of a live block's payload in place, as through a
    /// mutable payload pointer. The write is visible through every handle of
    /// the block; nothing else about the heap changes.
    pub fn write(&mut self, addr: usize, i: usize, value: u8)
        requires
            old(self).wf(),
            addr < old(self)@.len(),
            old(self)@[addr as int].live,
            i < old(self)@[addr as int].bytes.len(),
        ensures
            final(self)@ == old(self)@.update(
                addr as int,
                old(self)@[addr as int].with_bytes(old(self)@[addr as int].bytes.update(i as int, value)),
            ),
            final(self).wf(),
    {
        let blk = vec_index_mut(&mut self.blocks, addr);
        blk.bytes.set(i, value);
        proof {
            assert(self@ =~= old(self)@.update(
                addr as int,
                old(self)@[addr as int].with_bytes(old(self)@[addr as int].bytes.update(i as int, value)),
            ));
        }
    }
}

/// A shared heap cell: the address of a block in a [`RimeHeap`], co-owned
/// with every other handle holding the same address. The handle carries
/// identity, not contents — two handles are equal exactly when they address
/// the same block.
#[derive(Debug, PartialEq, Eq, Structural)]
pub struct Rime {
    addr: usize,
}

impl Rime {
    /// The address of the cell's block. In the modelled layout the counter
    /// sits at the block's start, so this is the counter's address too.
    pub closed spec fn id(self) -> int {
        self.addr as int
    }

    /// The handle is valid for `h`: its block exists and is still allocated.
    pub open spec fn wf<C: Counter>(self, h: RimeHeap<C>) -> bool {
        0 <= self.id() < h@.len() && h@[self.id()].live
    }

    /// Copy a borrowed payload, byte for byte, into a fresh block with a
    /// counter initialised to one, and return the first handle.
    pub fn new<C: Counter>(h: &mut RimeHeap<C>, value: &[u8]) -> (r: Rime)
        requires
            old(h).wf(),
        ensures
            r.id() == old(h)@.len(),
            final(h)@ == old(h)@.push(RimeModel::fresh(value@)),
            r.wf(*final(h)),
            final(h).wf(),
    {
        let addr = h.blocks.len();
        let bytes = copy_bytes(value);
        h.blocks.push(RimeBlock { live: true, counter: C::new(), bytes, dropped: false });
        proof {
            assert(h@ =~= old(h)@.push(RimeModel::fresh(value@)));
        }
        Rime { addr }
    }

    /// Move an owned payload into a fresh block with a counter initialised
    /// to one, and return the first handle. The payload's destructor is
    /// suppressed by the move: no release will run it.
    pub fn steal<C: Counter>(h: &mut RimeHeap<C>, value: Vec<u8>) -> (r: Rime)
        requires
            old(h).wf(),
        ensures
            r.id() == old(h)@.len(),
            final(h)@ == old(h)@.push(RimeModel::fresh(value@)),
            r.wf(*final(h)),
            final(h).wf(),
    {
        let addr = h.blocks.len();
        h.blocks.push(RimeBlock { live: true, counter: C::new(), bytes: value, dropped: false });
        proof {
            assert(h@ =~= old(h)@.push(RimeModel::fresh(value@)));
        }
        Rime { addr }
    }

    /// Adopt a caller-supplied block address. The caller must guarantee the
    /// address came from this heap's constructors and that the counter
    /// accounts for the new handle; a handle to a block that is not live
    /// fails the precondition of every later operation.
    pub fn from_raw(addr: usize) -> (r: Rime)
        ensures
            r.id() == addr as int,
    {
        Rime { addr }
    }

    /// One more co-owner: increment the block's counter and return a handle
    /// equal to this one. Fails only where the counter would exceed its
    /// strategy's limit — the overflow that checked counters panic on.
    pub fn clone<C: Counter>(&self, h: &mut RimeHeap<C>) -> (r: Rime)
        requires
            old(h).wf(),
            self.wf(*old(h)),
            old(h)@[self.id()].count < C::limit(),
        ensures
            r == *self,
            final(h)@ == old(h)@.update(self.id(), old(h)@[self.id()].bumped()),
            final(h).wf(),
    {
        let blk = vec_index_mut(&mut h.blocks, self.addr);
        blk.counter.increment();
        proof {
            assert(h@ =~= old(h)@.update(self.id(), old(h)@[self.id()].bumped()));
        }
        Rime { addr: self.addr }
    }

    /// Destroy this handle: decrement the block's counter, and deallocate
    /// the block exactly when the counter reaches zero — that is, exactly
    /// when this was the last handle. The payload's destructor is not run.
    /// Returns whether the block was deallocated.
    pub fn release<C: Counter>(self, h: &mut RimeHeap<C>) -> (freed: bool)
        requires
            old(h).wf(),
            self.wf(*old(h)),
        ensures
            freed <==> old(h)@[self.id()].count == 1,
            freed ==> final(h)@ == old(h)@.update(self.id(), old(h)@[self.id()].deallocated()),
            !freed ==> final(h)@ == old(h)@.update(self.id(), old(h)@[self.id()].decremented()),
            final(h).wf(),
    {
        let blk = vec_index_mut(&mut h.blocks, self.addr);
        let zero = blk.counter.decrement();
        if zero {
            blk.live = false;
            proof {
                assert(h@ =~= old(h)@.update(self.id(), old(h)@[self.id()].deallocated()));
            }
        } else {
            proof {
                assert(h@ =~= old(h)@.update(self.id(), old(h)@[self.id()].decremented()));
            }
        }
        zero
    }

    /// The block's payload address, as a read-only location. All handles of
    /// one block return the same address.
    pub fn as_ptr(&self) -> (p: usize)
        ensures
            p as int == self.id(),
    {
        self.addr
    }

    /// The block's payload address, as a location for in-place writes
    /// through [`RimeHeap::write`]. The cell gives no aliasing guarantee:
    /// writes are visible through every other handle of the block.
    pub fn as_mut_ptr(&self) -> (p: usize)
        ensures
            p as int == self.id(),
    {
        self.addr
    }

    /// Read the payload: a reference to the block's bytes, valid while the
    /// heap is borrowed. Every handle of one block reads the same bytes.
    pub fn get<'a, C: Counter>(&self, h: &'a RimeHeap<C>) -> (r: &'a Vec<u8>)
        requires
            self.wf(*h),
        ensures
            r@ == h@[self.id()].bytes,
    {
        &h.blocks[self.addr].bytes
    }

    /// Run the payload's destructor in place, without touching the counter
    /// or the block. Only meaningful for a payload whose destructor was
    /// deliberately suppressed at construction; it can be run at most once.
    pub fn drop_inner<C: Counter>(&self, h: &mut RimeHeap<C>)
        requires
            old(h).wf(),
            self.wf(*old(h)),
            !old(h)@[self.id()].dropped,
        ensures
            final(h)@ == old(h)@.update(self.id(), old(h)@[self.id()].with_dropped()),
            final(h).wf(),
    {
        let blk = vec_index_mut(&mut h.blocks, self.addr);
        blk.dropped = true;
        proof {
            assert(h@ =~= old(h)@.update(self.id(), old(h)@[self.id()].with_dropped()));
        }
    }

    /// Order two cells by their payloads: the result is exactly the
    /// lexicographic comparison of the dereferenced bytes, never a
    /// comparison of addresses.
    pub fn cmp<C: Counter>(&self, other: &Rime, h: &RimeHeap<C>) -> (r: Ordering)
        requires
            self.wf(*h),
            other.wf(*h),
        ensures
            r == lex_cmp_spec(h@[self.id()].bytes, h@[other.id()].bytes),
    {
        lex_cmp(self.get(h).as_slice(), other.get(h).as_slice())
    }
}

/// Identity law: two handles are equal exactly when they address the same
/// block, whatever their payloads hold.
pub proof fn lemma_rime_identity(a: Rime, b: Rime)
    ensures
        (a == b) <==> (a.id() == b.id()),
{
}

} // verus!
