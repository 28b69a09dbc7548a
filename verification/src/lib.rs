//! Two small generic container primitives: a circular list, whose indexed
//! reads and removals wrap around modulo the current size, and a LIFO stack
//! with an optional capacity bound, drain-style construction and iteration,
//! and element-wise transformation.

pub mod circular_list;
pub mod stack;
