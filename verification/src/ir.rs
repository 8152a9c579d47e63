//! The intermediate representation and the API that builds it.

pub mod arena;
pub mod basic_block;
pub mod builder;
pub mod function;
pub mod instruction;
pub mod order;
pub mod variable;
