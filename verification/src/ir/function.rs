//! Functions: the owners of basic blocks.

use typed_arena::Arena;
use vstd::prelude::*;

use super::arena::{
    alloc_block,
    arena_blocks,
    block_arena_get_mut,
    block_arena_into_vec,
    block_arena_len,
    block_views,
    new_block_arena,
};
use super::basic_block::BasicBlock;
use super::instruction::InstructionView;

verus! {

/// A function of the program: its basic blocks, in the order they were
/// added, and whether it is the program's entry.
pub struct Function {
    is_entry: bool,
    basic_blocks: Arena<BasicBlock>,
}

/// A [`Function`] as a mathematical value.
pub struct FunctionView {
    pub is_entry: bool,
    pub blocks: Seq<Seq<InstructionView>>,
}

impl View for Function {
    type V = FunctionView;

    closed spec fn view(&self) -> FunctionView {
        FunctionView { is_entry: self.is_entry, blocks: arena_blocks(self.basic_blocks) }
    }
}

impl Function {
    /// A function without blocks.
    pub fn new(is_entry: bool) -> (function: Self)
        ensures
            function@.is_entry == is_entry,
            function@.blocks == Seq::<Seq<InstructionView>>::empty(),
    {
        Self { is_entry, basic_blocks: new_block_arena() }
    }

    pub fn is_entry(&self) -> (is_entry: bool)
        ensures
            is_entry == self@.is_entry,
    {
        self.is_entry
    }

    /// The number of blocks of the function.
    pub fn len(&self) -> (len: usize)
        ensures
            len == self@.blocks.len(),
    {
        block_arena_len(&self.basic_blocks)
    }

    /// Adds an empty block behind the blocks of the function and hands it
    /// out for building. The function holds in that place whatever the
    /// block has become when the reference is given up.
    pub fn add_basic_block(&mut self) -> (block: &mut BasicBlock)
        ensures
            block@ == Seq::<InstructionView>::empty(),
            final(self)@.is_entry == old(self)@.is_entry,
            final(self)@.blocks == old(self)@.blocks.push(final(block)@),
    {
        alloc_block(&mut self.basic_blocks, BasicBlock::new())
    }

    /// Hands out the block at position `index` for more building, if there
    /// is one. No other block changes.
    pub fn basic_block_mut(&mut self, index: usize) -> (slot: Option<&mut BasicBlock>)
        ensures
            slot is Some <==> index < old(self)@.blocks.len(),
            final(self)@.is_entry == old(self)@.is_entry,
            slot matches Some(block) ==> block@ == old(self)@.blocks[index as int]
                && final(self)@.blocks == old(self)@.blocks.update(index as int, final(block)@),
            slot is None ==> final(self)@.blocks == old(self)@.blocks,
    {
        block_arena_get_mut(&mut self.basic_blocks, index)
    }

    /// Takes the function apart into its blocks, first added first.
    pub fn into_basic_blocks(self) -> (blocks: Vec<BasicBlock>)
        ensures
            block_views(blocks@) == self@.blocks,
    {
        block_arena_into_vec(self.basic_blocks)
    }
}

} // verus!
