//! Singly linked lists whose nodes live in an external, append-only arena.
//!
//! An [`Arena`] owns every node; a [`List`] is a 32-bit copyable handle to
//! the head of a chain of nodes, with one sentinel word meaning "no node".
//! List operations take the arena they were built in as an explicit
//! collaborator; the arena only grows, so chains are shared structurally
//! between handles and a handle stays 4 bytes even inside an `Option`.

mod arena;
mod list;
mod ptr;

pub use arena::{Arena, Node};
pub use list::{after_pushes, lemma_after_pushes_step, lemma_is_empty_iff_no_elems,
    lemma_pushes_reverse, List};
pub use ptr::SENTINEL_BASE;
