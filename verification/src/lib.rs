//! Singly-linked lists under three ownership disciplines: an exclusively
//! owned stack, the same stack with by-value, mutable and shared cursors,
//! and a persistent list whose versions share node storage.

pub mod basic_stack;
pub mod shared_list;
pub mod stack;
