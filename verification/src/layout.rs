//! Layout of a shared block: `[ counter | payload ]`.
//!
//! A shared cell keeps its counter and its payload in one contiguous block.
//! The counter sits at the block's start, the payload directly behind it, at
//! offset equal to the counter's size — not at the next padded offset. That
//! placement is only aligned when the payload's alignment divides the
//! counter's size; [`lemma_payload_offset_aligned`] states exactly that
//! restriction. Byte payloads, whose alignment is one, always satisfy it.

use vstd::prelude::*;
use vstd::arithmetic::div_mod::lemma_add_mod_noop;
use crate::counter::Counter;

verus! {

/// The size of a shared block: the counter followed by the payload's bytes.
pub open spec fn combined_size(counter_size: nat, payload_size: nat) -> nat {
    counter_size + payload_size
}

/// The alignment of a shared block: the stricter of its two parts.
pub open spec fn combined_align(counter_align: nat, payload_align: nat) -> nat {
    if counter_align >= payload_align {
        counter_align
    } else {
        payload_align
    }
}

/// The placement restriction: the payload, laid down at offset
/// `counter_size`, is aligned only when its alignment divides that size.
pub open spec fn offset_is_aligned(counter_size: nat, payload_align: nat) -> bool {
    payload_align > 0 && counter_size as int % payload_align as int == 0
}

/// If the block's base address is aligned for the payload and the payload's
/// alignment divides the counter's size, then the payload's address — base
/// plus counter size — is aligned as well. This is the condition under which
/// the unpadded `[ counter | payload ]` placement is correct.
pub proof fn lemma_payload_offset_aligned(base: nat, counter_size: nat, payload_align: nat)
    requires
        offset_is_aligned(counter_size, payload_align),
        base as int % payload_align as int == 0,
    ensures
        (base + counter_size) as int % payload_align as int == 0,
{
    let b = base as int;
    let c = counter_size as int;
    let m = payload_align as int;
    lemma_add_mod_noop(b, c, m);
    assert(0int % m == 0);
    assert((b + c) % m == 0);
}

/// The size and alignment of the block a shared cell with counter strategy
/// `C` occupies for a byte payload of length `payload_len`: counter and
/// payload packed together, aligned for the counter (byte payloads have
/// alignment one, so the counter's alignment is the stricter one and the
/// unpadded payload offset is always aligned). Returns nothing when the
/// combined size does not fit the address space — no allocation could hold
/// such a block.
pub fn block_layout<C: Counter>(payload_len: usize) -> (r: Option<(usize, usize)>)
    ensures
        match r {
            Some(layout) => {
                &&& vstd::layout::size_of::<C>() + payload_len <= usize::MAX
                &&& layout.0 == combined_size(vstd::layout::size_of::<C>(), payload_len as nat)
                &&& layout.1 == combined_align(vstd::layout::align_of::<C>(), 1)
            },
            None => vstd::layout::size_of::<C>() + payload_len > usize::MAX,
        },
{
    vstd::layout::layout_for_type_is_valid::<C>();
    let counter_size = core::mem::size_of::<C>();
    let align = core::mem::align_of::<C>();
    if payload_len <= usize::MAX - counter_size {
        proof {
            assert(vstd::layout::align_of::<C>() >= 1);
        }
        Some((counter_size + payload_len, align))
    } else {
        None
    }
}

} // verus!
