//! Typed construction of straight-line IR for a word-oriented virtual machine.
//!
//! A [`ir::builder::context::Context`] issues identifiers, a
//! [`ir::function::Function`] owns basic blocks, and a
//! [`ir::basic_block::BasicBlockBuilder`] appends instructions to one block,
//! handing back statically typed handles to their results.

pub mod ir;
pub mod util;
pub mod value;
