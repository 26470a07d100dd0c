//! Heap-cell primitives for immutable byte payloads, built over a verified
//! model of manual block allocation.
//!
//! The library offers two handle types. [`Flake`] is a one-owner cell: one
//! block, one handle, freed by its owner. [`Rime`] is a shared cell: one block
//! holding a reference counter next to the payload, multiplied by `clone`,
//! freed by the release that brings the counter to zero. Both cells treat the
//! payload as plain bytes: construction copies or moves the bytes in, and
//! destruction never runs a payload destructor.
//!
//! All blocks live in an explicit heap value ([`FlakeHeap`], [`RimeHeap`])
//! that stands for the process allocator. A handle stores only the address of
//! its block; equality of handles is equality of addresses, while ordering
//! compares the payloads themselves.
//!
//! Allocator refusal is deliberately not part of the surface: block storage
//! comes from the global allocator, whose exhaustion aborts the process — the
//! non-recoverable response these primitives call for. Counter overflow and
//! underflow, the panics of checked counting, are ruled out by preconditions
//! instead.

pub mod counter;
pub mod flake;
pub mod layout;
pub mod payload;
pub mod rime;

pub use counter::Counter;
pub use flake::Flake;
pub use flake::FlakeHeap;
pub use flake::FlakeModel;
pub use payload::lex_cmp;
pub use rime::Rime;
pub use rime::RimeHeap;
pub use rime::RimeModel;
