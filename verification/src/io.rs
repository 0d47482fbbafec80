//! The memory-mapped peripheral registers.

pub mod io;
pub mod lcd;
pub mod sound;
