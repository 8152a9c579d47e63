//! Helpers that carry no IR state of their own.

pub mod bigint;
pub mod bits;
pub mod compile_time;
