//! The one-owner heap cell.
//!
//! A [`Flake`] owns a single heap block holding an immutable byte payload.
//! Blocks live in a [`FlakeHeap`], the explicit stand-in for the process
//! allocator: allocation appends a block, deallocation marks it freed, and a
//! handle is nothing but the address of its block. Handles compare equal
//! exactly when they address the same block; payload order is a separate,
//! value-based comparison.
//!
//! Freeing a cell never runs a destructor on the payload: the cell owns
//! bytes, not values. A payload whose destructor was deliberately suppressed
//! when the bytes were moved in can be finalised once with
//! [`Flake::drop_inner`] before the block is freed.

use vstd::prelude::*;
use vstd::pervasive::VecAdditionalExecFns;
use vstd::std_specs::vec::vec_index_mut;
use core::cmp::Ordering;
use crate::payload::copy_bytes;
use crate::payload::lex_cmp;
use crate::payload::lex_cmp_spec;

verus! {

/// The abstract state of one unique-cell block: whether it is still
/// allocated, the payload bytes it holds, and whether the payload's
/// destructor has been run in place.
pub struct FlakeModel {
    pub live: bool,
    pub bytes: Seq<u8>,
    pub dropped: bool,
}

impl FlakeModel {
    /// A freshly allocated block holding `bytes`.
    pub open spec fn fresh(bytes: Seq<u8>) -> FlakeModel {
        FlakeModel { live: true, bytes, dropped: false }
    }

    /// The same block with its payload bytes replaced.
    pub open spec fn with_bytes(self, bytes: Seq<u8>) -> FlakeModel {
        FlakeModel { bytes, ..self }
    }

    /// The same block after its payload's destructor ran in place.
    pub open spec fn with_dropped(self) -> FlakeModel {
        FlakeModel { dropped: true, ..self }
    }

    /// The same block after deallocation.
    pub open spec fn freed(self) -> FlakeModel {
        FlakeModel { live: false, ..self }
    }
}

struct FlakeBlock {
    live: bool,
    bytes: Vec<u8>,
    dropped: bool,
}

impl FlakeBlock {
    spec fn model(&self) -> FlakeModel {
        FlakeModel { live: self.live, bytes: self.bytes@, dropped: self.dropped }
    }
}

/// The allocator for unique cells: a sequence of blocks, viewed as their
/// abstract states. Addresses are indices into this sequence; a freed block
/// keeps its address, so addresses are never reused.
pub struct FlakeHeap {
    blocks: Vec<FlakeBlock>,
}

impl View for FlakeHeap {
    type V = Seq<FlakeModel>;

    closed spec fn view(&self) -> Seq<FlakeModel> {
        Seq::new(self.blocks@.len(), |i: int| self.blocks@[i].model())
    }
}

impl FlakeHeap {
    /// An allocator with no blocks.
    pub fn new() -> (h: FlakeHeap)
        ensures
            h@ == Seq::<FlakeModel>::empty(),
    {
        let h = FlakeHeap { blocks: Vec::new() };
        proof {
            assert(h@ =~= Seq::<FlakeModel>::empty());
        }
        h
    }

    /// Allocate a raw block of `size` bytes, all zero, and return its
    /// address. This is the low-level path behind [`Flake::from_raw`]:
    /// callers fill the block themselves and then adopt it.
    pub fn allocate(&mut self, size: usize) -> (addr: usize)
        ensures
            addr as int == old(self)@.len(),
            final(self)@ == old(self)@.push(FlakeModel::fresh(Seq::new(size as nat, |i: int| 0u8))),
    {
        let addr = self.blocks.len();
        let bytes = vec![0u8; size];
        proof {
            assert(bytes@ =~= Seq::new(size as nat, |i: int| 0u8));
        }
        self.blocks.push(FlakeBlock { live: true, bytes, dropped: false });
        proof {
            assert(self@ =~= old(self)@.push(FlakeModel::fresh(Seq::new(size as nat, |i: int| 0u8))));
        }
        addr
    }

    /// Whether `addr` names a block that is currently allocated.
    pub fn live(&self, addr: usize) -> (l: bool)
        ensures
            l == (addr < self@.len() && self@[addr as int].live),
    {
        addr < self.blocks.len() && self.blocks[addr].live
    }

    /// Whether the payload destructor of the block at `addr` has been run in
    /// place. The heap itself never runs it; only an explicit
    /// [`Flake::drop_inner`] does.
    pub fn dropped(&self, addr: usize) -> (d: bool)
        requires
            addr < self@.len(),
        ensures
            d == self@[addr as int].dropped,
    {
        self.blocks[addr].dropped
    }

    /// Write one byte of a live block in place, as through a mutable payload
    /// pointer. Nothing else about the heap changes.
    pub fn write(&mut self, addr: usize, i: usize, value: u8)
        requires
            addr < old(self)@.len(),
            old(self)@[addr as int].live,
            i < old(self)@[addr as int].bytes.len(),
        ensures
            final(self)@ == old(self)@.update(
                addr as int,
                old(self)@[addr as int].with_bytes(old(self)@[addr as int].bytes.update(i as int, value)),
            ),
    {
        let blk = vec_index_mut(&mut self.blocks, addr);
        blk.bytes.set(i, value);
        proof {
            assert(self@ =~= old(self)@.update(
                addr as int,
                old(self)@[addr as int].with_bytes(old(self)@[addr as int].bytes.update(i as int, value)),
            ));
        }
    }
}

/// A one-owner heap cell: the address of a block in a [`FlakeHeap`]. The
/// handle carries identity, not contents — two handles are equal exactly
/// when they address the same block.
#[derive(Debug, PartialEq, Eq, Structural)]
pub struct Flake {
    addr: usize,
}

impl Flake {
    /// The address of the cell's block.
    pub closed spec fn id(self) -> int {
        self.addr as int
    }

    /// The handle is valid for `h`: its block exists and is still allocated.
    pub open spec fn wf(self, h: FlakeHeap) -> bool {
        0 <= self.id() < h@.len() && h@[self.id()].live
    }

    /// Copy a borrowed payload, byte for byte, into a fresh block and return
    /// the owning cell. The source is read, never consumed.
    pub fn new(h: &mut FlakeHeap, value: &[u8]) -> (f: Flake)
        ensures
            f.id() == old(h)@.len(),
            final(h)@ == old(h)@.push(FlakeModel::fresh(value@)),
            f.wf(*final(h)),
    {
        let addr = h.blocks.len();
        let bytes = copy_bytes(value);
        h.blocks.push(FlakeBlock { live: true, bytes, dropped: false });
        proof {
            assert(h@ =~= old(h)@.push(FlakeModel::fresh(value@)));
        }
        Flake { addr }
    }

    /// Move an owned payload into a fresh block and return the owning cell.
    /// The payload's destructor is suppressed by the move: the cell will not
    /// run it unless [`Flake::drop_inner`] is called.
    pub fn steal(h: &mut FlakeHeap, value: Vec<u8>) -> (f: Flake)
        ensures
            f.id() == old(h)@.len(),
            final(h)@ == old(h)@.push(FlakeModel::fresh(value@)),
            f.wf(*final(h)),
    {
        let addr = h.blocks.len();
        h.blocks.push(FlakeBlock { live: true, bytes: value, dropped: false });
        proof {
            assert(h@ =~= old(h)@.push(FlakeModel::fresh(value@)));
        }
        Flake { addr }
    }

    /// Adopt a caller-supplied block address, claiming ownership. The caller
    /// must guarantee that the block was allocated in the heap the cell will
    /// be used with, and that no other owner exists; a handle to a block
    /// that is not live fails the precondition of every later operation.
    pub fn from_raw(addr: usize) -> (f: Flake)
        ensures
            f.id() == addr as int,
    {
        Flake { addr }
    }

    /// The block address, as a read-only location.
    pub fn as_ptr(&self) -> (p: usize)
        ensures
            p as int == self.id(),
    {
        self.addr
    }

    /// The block address, as a location for in-place writes through
    /// [`FlakeHeap::write`]. The cell gives no aliasing guarantee: writes are
    /// visible through every later read of the block.
    pub fn as_mut_ptr(&self) -> (p: usize)
        ensures
            p as int == self.id(),
    {
        self.addr
    }

    /// Read the payload: a reference to the block's bytes, valid while the
    /// heap is borrowed.
    pub fn get<'a>(&self, h: &'a FlakeHeap) -> (r: &'a Vec<u8>)
        requires
            self.wf(*h),
        ensures
            r@ == h@[self.id()].bytes,
    {
        &h.blocks[self.addr].bytes
    }

    /// Run the payload's destructor in place, without freeing the block.
    /// Only meaningful for a payload whose destructor was deliberately
    /// suppressed at construction; it can be run at most once.
    pub fn drop_inner(&self, h: &mut FlakeHeap)
        requires
            self.wf(*old(h)),
            !old(h)@[self.id()].dropped,
        ensures
            final(h)@ == old(h)@.update(self.id(), old(h)@[self.id()].with_dropped()),
    {
        let blk = vec_index_mut(&mut h.blocks, self.addr);
        blk.dropped = true;
        proof {
            assert(h@ =~= old(h)@.update(self.id(), old(h)@[self.id()].with_dropped()));
        }
    }

    /// Destroy the cell: deallocate its block. The payload's destructor is
    /// not run — the cell owns bytes, not values.
    pub fn free(self, h: &mut FlakeHeap)
        requires
            self.wf(*old(h)),
        ensures
            final(h)@ == old(h)@.update(self.id(), old(h)@[self.id()].freed()),
    {
        let blk = vec_index_mut(&mut h.blocks, self.addr);
        blk.live = false;
        proof {
            assert(h@ =~= old(h)@.update(self.id(), old(h)@[self.id()].freed()));
        }
    }

    /// Order two cells by their payloads: the result is exactly the
    /// lexicographic comparison of the dereferenced bytes, never a
    /// comparison of addresses.
    pub fn cmp(&self, other: &Flake, h: &FlakeHeap) -> (r: Ordering)
        requires
            self.wf(*h),
            other.wf(*h),
        ensures
            r == lex_cmp_spec(h@[self.id()].bytes, h@[other.id()].bytes),
    {
        lex_cmp(self.get(h).as_slice(), other.get(h).as_slice())
    }
}

/// Identity law: two handles are equal exactly when they address the same
/// block, whatever their payloads hold.
pub proof fn lemma_flake_identity(a: Flake, b: Flake)
    ensures
        (a == b) <==> (a.id() == b.id()),
{
}

} // verus!
