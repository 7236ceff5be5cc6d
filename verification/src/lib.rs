//! A collection of small verified data structures, centred on a gap buffer:
//! a sequence container optimised for insertions and removals near a moving
//! cursor, as used by text editors.

pub mod ascii;
pub mod binary_tree;
pub mod complex;
pub mod ferns;
pub mod gap;
pub mod generic_queue;
pub mod interval;
pub mod queue;
