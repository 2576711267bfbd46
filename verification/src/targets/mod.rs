//! The provided targets and what they are made of.

pub mod stderr;
pub mod stdout;
pub mod uart;
pub mod util;
