//! What this crate takes from the arenas of `typed_arena`.
//!
//! An arena only grows: values are allocated into it one by one and stay in
//! the order of their allocation until the arena is taken apart. The arena
//! itself would allocate through a shared reference; every function here
//! that changes an arena takes it by exclusive reference, so that what an
//! arena holds is a function of its value.

use typed_arena::Arena;
use vstd::prelude::*;

use super::basic_block::BasicBlock;
use super::instruction::{Instruction, InstructionView};

verus! {

#[verifier::external_type_specification]
#[verifier::external_body]
#[verifier::reject_recursive_types(T)]
pub struct ExArena<T>(typed_arena::Arena<T>);

/// The instructions that an arena holds, in the order of their allocation.
pub uninterp spec fn arena_instructions(arena: Arena<Instruction>) -> Seq<InstructionView>;

/// The blocks that an arena holds, in the order of their allocation, each as
/// the sequence of its instructions.
pub uninterp spec fn arena_blocks(arena: Arena<BasicBlock>) -> Seq<Seq<InstructionView>>;

/// The views of the instructions of `instructions`, in order.
pub open spec fn instruction_views(instructions: Seq<Instruction>) -> Seq<InstructionView> {
    Seq::new(instructions.len(), |i: int| instructions[i]@)
}

/// The views of the blocks of `blocks`, in order.
pub open spec fn block_views(blocks: Seq<BasicBlock>) -> Seq<Seq<InstructionView>> {
    Seq::new(blocks.len(), |i: int| blocks[i]@)
}

/// `Arena::new`: an arena that holds nothing yet.
#[verifier::external_body]
pub(crate) fn new_instruction_arena() -> (arena: Arena<Instruction>)
    ensures
        arena_instructions(arena) == Seq::<InstructionView>::empty(),
{
    Arena::new()
}

/// `Arena::alloc`: the value is stored behind everything allocated before.
#[verifier::external_body]
pub(crate) fn alloc_instruction(arena: &mut Arena<Instruction>, instruction: Instruction)
    ensures
        arena_instructions(*final(arena)) == arena_instructions(*old(arena)).push(instruction@),
{
    arena.alloc(instruction);
}

/// `Arena::len`: the number of values allocated so far.
#[verifier::external_body]
pub(crate) fn instruction_arena_len(arena: &Arena<Instruction>) -> (len: usize)
    ensures
        len == arena_instructions(*arena).len(),
{
    arena.len()
}

/// `Arena::into_vec`: the values in the order they were allocated in.
#[verifier::external_body]
pub(crate) fn instruction_arena_into_vec(arena: Arena<Instruction>) -> (instructions: Vec<
    Instruction,
>)
    ensures
        instruction_views(instructions@) == arena_instructions(arena),
{
    arena.into_vec()
}

/// `Arena::iter_mut`, with a copy taken of each instruction: the iterator
/// yields the values in the order they were allocated in, and the arena
/// holds afterwards what it held before.
#[verifier::external_body]
pub(crate) fn instruction_arena_to_vec(arena: &mut Arena<Instruction>) -> (instructions: Vec<
    Instruction,
>)
    ensures
        instruction_views(instructions@) == arena_instructions(*old(arena)),
        arena_instructions(*final(arena)) == arena_instructions(*old(arena)),
{
    arena.iter_mut().map(|instruction| instruction.clone()).collect()
}

/// `Arena::new`: an arena that holds nothing yet.
#[verifier::external_body]
pub(crate) fn new_block_arena() -> (arena: Arena<BasicBlock>)
    ensures
        arena_blocks(arena) == Seq::<Seq<InstructionView>>::empty(),
{
    Arena::new()
}

/// `Arena::alloc`: the block is stored behind everything allocated before,
/// and the reference that comes back is the only way to it until it is
/// given up. What the arena then holds in that place is what was written
/// through the reference.
#[verifier::external_body]
pub(crate) fn alloc_block<'a>(arena: &'a mut Arena<BasicBlock>, block: BasicBlock) -> (slot:
    &'a mut BasicBlock)
    ensures
        slot@ == block@,
        arena_blocks(*final(arena)) == arena_blocks(*old(arena)).push(final(slot)@),
{
    arena.alloc(block)
}

/// `Arena::len`: the number of values allocated so far.
#[verifier::external_body]
pub(crate) fn block_arena_len(arena: &Arena<BasicBlock>) -> (len: usize)
    ensures
        len == arena_blocks(*arena).len(),
{
    arena.len()
}

/// `Arena::into_vec`: the values in the order they were allocated in.
#[verifier::external_body]
pub(crate) fn block_arena_into_vec(arena: Arena<BasicBlock>) -> (blocks: Vec<BasicBlock>)
    ensures
        block_views(blocks@) == arena_blocks(arena),
{
    arena.into_vec()
}

/// `Arena::iter_mut`, advanced to the block allocated at position `index`:
/// the iterator yields the values in the order they were allocated in, so
/// there is such a block exactly when `index` is below the length. What the
/// arena holds in that place afterwards is what was written through the
/// reference; every other place is untouched.
#[verifier::external_body]
pub(crate) fn block_arena_get_mut<'a>(arena: &'a mut Arena<BasicBlock>, index: usize) -> (slot:
    Option<&'a mut BasicBlock>)
    ensures
        slot is Some <==> index < arena_blocks(*old(arena)).len(),
        slot matches Some(block) ==> block@ == arena_blocks(*old(arena))[index as int]
            && arena_blocks(*final(arena)) == arena_blocks(*old(arena)).update(
            index as int,
            final(block)@,
        ),
        slot is None ==> arena_blocks(*final(arena)) == arena_blocks(*old(arena)),
{
    arena.iter_mut().nth(index)
}

} // verus!
