//! Linking: copying a value of one assembly into another, re-interning every
//! value that it refers to, so that the copy means in the destination what
//! the value means in the source. The source is only read and the
//! destination only grows; what the destination already knows is found
//! again and adds nothing.

pub mod defs;
pub mod nodes;
pub mod refs;
