//! Elementwise scalar maps over device buffers: a kernel-source template for
//! each compound-assignment operator, and the program and kernel handles
//! built from it, with the buffer length cached as the work size.

pub mod map;
pub mod source;

pub use map::{MapKernel, MapProgram};
pub use source::{kernel_source, Op, ENTRY_POINT};
