//! Basic blocks and the builder that appends to them.
//!
//! A [`BasicBlockBuilder`] has one method for each opcode. The types of its
//! parameters fix what may stand in each operand role:
//! - arithmetic, bitwise operations and shifts work on integers of any one
//!   type, signed or unsigned, and give a result of that type;
//! - comparisons take two integers of one type and give a [`BoolVar`];
//! - positions in memory are [`PointerVar`]s, addresses of accounts are
//!   `UIntVar<20>`, and every other quantity (sizes, indices, gas, values) is
//!   a machine word, `UIntVar<32>`;
//! - calls give a [`BoolVar`] that tells whether the call succeeded.
//!
//! A handle may be passed to a builder only if the builder's context has
//! issued its identifier; handles that a builder on the same context returned
//! earlier always qualify.

use typed_arena::Arena;
use vstd::prelude::*;

use super::arena::{
    alloc_instruction,
    arena_instructions,
    instruction_arena_into_vec,
    instruction_arena_len,
    instruction_arena_to_vec,
    instruction_views,
    new_instruction_arena,
};
use super::builder::context::Context;
use super::instruction::{Instruction, InstructionView, Opcode};
use super::order::{built, in_issue_order, lemma_defining_keeps_order, lemma_effect_keeps_order};
use super::variable::{
    AnyVar,
    BoolVar,
    BothIntAnyVar,
    PointerVar,
    Type,
    UIntVar,
    VarId,
    VarIdExt,
};

verus! {

/// A straight-line sequence of instructions that only grows at its end.
pub struct BasicBlock {
    instructions: Arena<Instruction>,
}

impl View for BasicBlock {
    type V = Seq<InstructionView>;

    /// The instructions of the block in the order they were appended in.
    closed spec fn view(&self) -> Seq<InstructionView> {
        arena_instructions(self.instructions)
    }
}

impl BasicBlock {
    pub fn new() -> (block: Self)
        ensures
            block@ == Seq::<InstructionView>::empty(),
    {
        Self { instructions: new_instruction_arena() }
    }

    /// Appends `instruction`. Nothing that the block held before changes.
    pub(crate) fn push(&mut self, instruction: Instruction)
        ensures
            final(self)@ == old(self)@.push(instruction@),
    {
        alloc_instruction(&mut self.instructions, instruction);
    }

    /// The number of instructions in the block.
    pub fn len(&self) -> (len: usize)
        ensures
            len == self@.len(),
    {
        instruction_arena_len(&self.instructions)
    }

    /// Copies of the instructions of the block, first appended first. The
    /// block stays as it is.
    pub fn instructions(&mut self) -> (instructions: Vec<Instruction>)
        ensures
            instruction_views(instructions@) == old(self)@,
            final(self)@ == old(self)@,
    {
        instruction_arena_to_vec(&mut self.instructions)
    }

    /// Takes the block apart into its instructions, first appended first.
    pub fn into_instructions(self) -> (instructions: Vec<Instruction>)
        ensures
            instruction_views(instructions@) == self@,
    {
        instruction_arena_into_vec(self.instructions)
    }
}

impl Default for BasicBlock {
    fn default() -> (block: Self)
        ensures
            block@ == Seq::<InstructionView>::empty(),
    {
        Self::new()
    }
}

/// Appends instructions to one basic block, naming their results with
/// identifiers from one context.
///
/// The builder holds both exclusively while it lives. What it has appended
/// and issued shows in the block and the context once it has let go of them.
pub struct BasicBlockBuilder<'ctx> {
    pub context: &'ctx mut Context,
    pub basic_block: &'ctx mut BasicBlock,
}

impl<'ctx> BasicBlockBuilder<'ctx> {
    /// The instructions of the bound block as they stand.
    pub open spec fn block(&self) -> Seq<InstructionView> {
        self.basic_block@
    }

    /// The number of identifiers that the bound context has issued.
    pub open spec fn issued(&self) -> nat {
        self.context.issued()
    }

    /// `handle` names something that the bound context has issued.
    pub open spec fn knows<T: AnyVar>(&self, handle: &T) -> bool {
        handle.erased().id < self.issued()
    }

    /// The builder has come from `before` by appending the instruction of
    /// `opcode` with the operands `args`. Where the opcode has a result, the
    /// context has issued one identifier more, which names that result;
    /// otherwise it has issued nothing. The instruction stands last in the
    /// block and has the shape that the opcode table gives, and a block that
    /// was in issue order still is.
    pub open spec fn appended(&self, before: &Self, opcode: Opcode, args: Seq<VarId>) -> bool {
        let instruction = built(opcode, args, before.issued());
        &&& self.issued() == before.issued() + if opcode.has_result() {
            1nat
        } else {
            0nat
        }
        &&& self.block() == before.block().push(instruction)
        &&& instruction.well_formed()
        &&& in_issue_order(before.block(), before.issued()) ==> in_issue_order(
            self.block(),
            self.issued(),
        )
    }

    /// A builder that appends to `basic_block` and takes identifiers from
    /// `context`, both as they stand.
    pub(crate) fn new(context: &'ctx mut Context, basic_block: &'ctx mut BasicBlock) -> (builder:
        Self)
        ensures
            *builder.context == *old(context),
            *builder.basic_block == *old(basic_block),
            *final(builder.context) == *final(context),
            *final(builder.basic_block) == *final(basic_block),
    {
        Self { context, basic_block }
    }

    /// Addition.
    pub fn build_add<T: BothIntAnyVar>(&mut self, a: T, b: T) -> (result: T)
        requires
            old(self).issued() < u64::MAX,
            old(self).knows(&a),
            old(self).knows(&b),
        ensures
            result.erased().id == old(self).issued(),
            result.erased().ty == T::static_type(),
            final(self).appended(old(self), Opcode::Add, seq![a.erased().id, b.erased().id]),
            *final(final(self).context) == *final(old(self).context),
            *final(final(self).basic_block) == *final(old(self).basic_block),
    {
        let ghost args: Seq<VarId> = seq![a.erased().id, b.erased().id];
        proof {
            if in_issue_order(self.block(), self.issued()) {
                lemma_defining_keeps_order(self.block(), self.issued(), Opcode::Add, args);
            }
        }
        let destination = self.context.next_id();
        self.basic_block.push(Instruction::add(destination, a.id(), b.id()));
        destination.assume_unchecked()
    }

    /// Multiplication.
    pub fn build_mul<T: BothIntAnyVar>(&mut self, a: T, b: T) -> (result: T)
        requires
            old(self).issued() < u64::MAX,
            old(self).knows(&a),
            old(self).knows(&b),
        ensures
            result.erased().id == old(self).issued(),
            result.erased().ty == T::static_type(),
            final(self).appended(old(self), Opcode::Mul, seq![a.erased().id, b.erased().id]),
            *final(final(self).context) == *final(old(self).context),
            *final(final(self).basic_block) == *final(old(self).basic_block),
    {
        let ghost args: Seq<VarId> = seq![a.erased().id, b.erased().id];
        proof {
            if in_issue_order(self.block(), self.issued()) {
                lemma_defining_keeps_order(self.block(), self.issued(), Opcode::Mul, args);
            }
        }
        let destination = self.context.next_id();
        self.basic_block.push(Instruction::mul(destination, a.id(), b.id()));
        destination.assume_unchecked()
    }

    /// Subtraction.
    pub fn build_sub<T: BothIntAnyVar>(&mut self, a: T, b: T) -> (result: T)
        requires
            old(self).issued() < u64::MAX,
            old(self).knows(&a),
            old(self).knows(&b),
        ensures
            result.erased().id == old(self).issued(),
            result.erased().ty == T::static_type(),
            final(self).appended(old(self), Opcode::Sub, seq![a.erased().id, b.erased().id]),
            *final(final(self).context) == *final(old(self).context),
            *final(final(self).basic_block) == *final(old(self).basic_block),
    {
        let ghost args: Seq<VarId> = seq![a.erased().id, b.erased().id];
        proof {
            if in_issue_order(self.block(), self.issued()) {
                lemma_defining_keeps_order(self.block(), self.issued(), Opcode::Sub, args);
            }
        }
        let destination = self.context.next_id();
        self.basic_block.push(Instruction::sub(destination, a.id(), b.id()));
        destination.assume_unchecked()
    }

    /// Division.
    pub fn build_div<T: BothIntAnyVar>(&mut self, a: T, b: T) -> (result: T)
        requires
            old(self).issued() < u64::MAX,
            old(self).knows(&a),
            old(self).knows(&b),
        ensures
            result.erased().id == old(self).issued(),
            result.erased().ty == T::static_type(),
            final(self).appended(old(self), Opcode::Div, seq![a.erased().id, b.erased().id]),
            *final(final(self).context) == *final(old(self).context),
            *final(final(self).basic_block) == *final(old(self).basic_block),
    {
        let ghost args: Seq<VarId> = seq![a.erased().id, b.erased().id];
        proof {
            if in_issue_order(self.block(), self.issued()) {
                lemma_defining_keeps_order(self.block(), self.issued(), Opcode::Div, args);
            }
        }
        let destination = self.context.next_id();
        self.basic_block.push(Instruction::div(destination, a.id(), b.id()));
        destination.assume_unchecked()
    }

    /// Remainder of a division.
    pub fn build_modulo<T: BothIntAnyVar>(&mut self, a: T, b: T) -> (result: T)
        requires
            old(self).issued() < u64::MAX,
            old(self).knows(&a),
            old(self).knows(&b),
        ensures
            result.erased().id == old(self).issued(),
            result.erased().ty == T::static_type(),
            final(self).appended(old(self), Opcode::Modulo, seq![a.erased().id, b.erased().id]),
            *final(final(self).context) == *final(old(self).context),
            *final(final(self).basic_block) == *final(old(self).basic_block),
    {
        let ghost args: Seq<VarId> = seq![a.erased().id, b.erased().id];
        proof {
            if in_issue_order(self.block(), self.issued()) {
                lemma_defining_keeps_order(self.block(), self.issued(), Opcode::Modulo, args);
            }
        }
        let destination = self.context.next_id();
        self.basic_block.push(Instruction::modulo(destination, a.id(), b.id()));
        destination.assume_unchecked()
    }

    /// Addition modulo `n`.
    pub fn build_add_mod<T: BothIntAnyVar>(&mut self, a: T, b: T, n: T) -> (result: T)
        requires
            old(self).issued() < u64::MAX,
            old(self).knows(&a),
            old(self).knows(&b),
            old(self).knows(&n),
        ensures
            result.erased().id == old(self).issued(),
            result.erased().ty == T::static_type(),
            final(self).appended(
                old(self),
                Opcode::AddMod,
                seq![a.erased().id, b.erased().id, n.erased().id],
            ),
            *final(final(self).context) == *final(old(self).context),
            *final(final(self).basic_block) == *final(old(self).basic_block),
    {
        let ghost args: Seq<VarId> = seq![a.erased().id, b.erased().id, n.erased().id];
        proof {
            if in_issue_order(self.block(), self.issued()) {
                lemma_defining_keeps_order(self.block(), self.issued(), Opcode::AddMod, args);
            }
        }
        let destination = self.context.next_id();
        self.basic_block.push(Instruction::add_mod(destination, a.id(), b.id(), n.id()));
        destination.assume_unchecked()
    }

    /// Multiplication modulo `n`.
    pub fn build_mul_mod<T: BothIntAnyVar>(&mut self, a: T, b: T, n: T) -> (result: T)
        requires
            old(self).issued() < u64::MAX,
            old(self).knows(&a),
            old(self).knows(&b),
            old(self).knows(&n),
        ensures
            result.erased().id == old(self).issued(),
            result.erased().ty == T::static_type(),
            final(self).appended(
                old(self),
                Opcode::MulMod,
                seq![a.erased().id, b.erased().id, n.erased().id],
            ),
            *final(final(self).context) == *final(old(self).context),
            *final(final(self).basic_block) == *final(old(self).basic_block),
    {
        let ghost args: Seq<VarId> = seq![a.erased().id, b.erased().id, n.erased().id];
        proof {
            if in_issue_order(self.block(), self.issued()) {
                lemma_defining_keeps_order(self.block(), self.issued(), Opcode::MulMod, args);
            }
        }
        let destination = self.context.next_id();
        self.basic_block.push(Instruction::mul_mod(destination, a.id(), b.id(), n.id()));
        destination.assume_unchecked()
    }

    /// Exponentiation.
    pub fn build_exp<T: BothIntAnyVar>(&mut self, a: T, exponent: T) -> (result: T)
        requires
            old(self).issued() < u64::MAX,
            old(self).knows(&a),
            old(self).knows(&exponent),
        ensures
            result.erased().id == old(self).issued(),
            result.erased().ty == T::static_type(),
            final(self).appended(old(self), Opcode::Exp, seq![a.erased().id, exponent.erased().id]),
            *final(final(self).context) == *final(old(self).context),
            *final(final(self).basic_block) == *final(old(self).basic_block),
    {
        let ghost args: Seq<VarId> = seq![a.erased().id, exponent.erased().id];
        proof {
            if in_issue_order(self.block(), self.issued()) {
                lemma_defining_keeps_order(self.block(), self.issued(), Opcode::Exp, args);
            }
        }
        let destination = self.context.next_id();
        self.basic_block.push(Instruction::exp(destination, a.id(), exponent.id()));
        destination.assume_unchecked()
    }

    /// Sign extension of `a` from a width given in bytes.
    pub fn build_sext<T: BothIntAnyVar>(&mut self, size_in_bytes: UIntVar<32>, a: T) -> (result: T)
        requires
            old(self).issued() < u64::MAX,
            old(self).knows(&size_in_bytes),
            old(self).knows(&a),
        ensures
            result.erased().id == old(self).issued(),
            result.erased().ty == T::static_type(),
            final(self).appended(old(self), Opcode::Sext, seq![size_in_bytes@.id, a.erased().id]),
            *final(final(self).context) == *final(old(self).context),
            *final(final(self).basic_block) == *final(old(self).basic_block),
    {
        let ghost args: Seq<VarId> = seq![size_in_bytes@.id, a.erased().id];
        proof {
            if in_issue_order(self.block(), self.issued()) {
                lemma_defining_keeps_order(self.block(), self.issued(), Opcode::Sext, args);
            }
        }
        let destination = self.context.next_id();
        self.basic_block.push(Instruction::sext(destination, size_in_bytes.id(), a.id()));
        destination.assume_unchecked()
    }

    /// Less-than comparison.
    pub fn build_lt<T: BothIntAnyVar>(&mut self, a: T, b: T) -> (result: BoolVar)
        requires
            old(self).issued() < u64::MAX,
            old(self).knows(&a),
            old(self).knows(&b),
        ensures
            result@.id == old(self).issued(),
            result@.ty == Type::Bool,
            final(self).appended(old(self), Opcode::Lt, seq![a.erased().id, b.erased().id]),
            *final(final(self).context) == *final(old(self).context),
            *final(final(self).basic_block) == *final(old(self).basic_block),
    {
        let ghost args: Seq<VarId> = seq![a.erased().id, b.erased().id];
        proof {
            if in_issue_order(self.block(), self.issued()) {
                lemma_defining_keeps_order(self.block(), self.issued(), Opcode::Lt, args);
            }
        }
        let destination = self.context.next_id();
        self.basic_block.push(Instruction::lt(destination, a.id(), b.id()));
        destination.assume_unchecked()
    }

    /// Greater-than comparison.
    pub fn build_gt<T: BothIntAnyVar>(&mut self, a: T, b: T) -> (result: BoolVar)
        requires
            old(self).issued() < u64::MAX,
            old(self).knows(&a),
            old(self).knows(&b),
        ensures
            result@.id == old(self).issued(),
            result@.ty == Type::Bool,
            final(self).appended(old(self), Opcode::Gt, seq![a.erased().id, b.erased().id]),
            *final(final(self).context) == *final(old(self).context),
            *final(final(self).basic_block) == *final(old(self).basic_block),
    {
        let ghost args: Seq<VarId> = seq![a.erased().id, b.erased().id];
        proof {
            if in_issue_order(self.block(), self.issued()) {
                lemma_defining_keeps_order(self.block(), self.issued(), Opcode::Gt, args);
            }
        }
        let destination = self.context.next_id();
        self.basic_block.push(Instruction::gt(destination, a.id(), b.id()));
        destination.assume_unchecked()
    }

    /// Equality comparison.
    pub fn build_eq<T: BothIntAnyVar>(&mut self, a: T, b: T) -> (result: BoolVar)
        requires
            old(self).issued() < u64::MAX,
            old(self).knows(&a),
            old(self).knows(&b),
        ensures
            result@.id == old(self).issued(),
            result@.ty == Type::Bool,
            final(self).appended(old(self), Opcode::Eq, seq![a.erased().id, b.erased().id]),
            *final(final(self).context) == *final(old(self).context),
            *final(final(self).basic_block) == *final(old(self).basic_block),
    {
        let ghost args: Seq<VarId> = seq![a.erased().id, b.erased().id];
        proof {
            if in_issue_order(self.block(), self.issued()) {
                lemma_defining_keeps_order(self.block(), self.issued(), Opcode::Eq, args);
            }
        }
        let destination = self.context.next_id();
        self.basic_block.push(Instruction::eq(destination, a.id(), b.id()));
        destination.assume_unchecked()
    }

    /// Comparison with zero.
    pub fn build_is_zero<T: BothIntAnyVar>(&mut self, a: T) -> (result: BoolVar)
        requires
            old(self).issued() < u64::MAX,
            old(self).knows(&a),
        ensures
            result@.id == old(self).issued(),
            result@.ty == Type::Bool,
            final(self).appended(old(self), Opcode::IsZero, seq![a.erased().id]),
            *final(final(self).context) == *final(old(self).context),
            *final(final(self).basic_block) == *final(old(self).basic_block),
    {
        let ghost args: Seq<VarId> = seq![a.erased().id];
        proof {
            if in_issue_order(self.block(), self.issued()) {
                lemma_defining_keeps_order(self.block(), self.issued(), Opcode::IsZero, args);
            }
        }
        let destination = self.context.next_id();
        self.basic_block.push(Instruction::is_zero(destination, a.id()));
        destination.assume_unchecked()
    }

    /// Bitwise and.
    pub fn build_and<T: BothIntAnyVar>(&mut self, a: T, b: T) -> (result: T)
        requires
            old(self).issued() < u64::MAX,
            old(self).knows(&a),
            old(self).knows(&b),
        ensures
            result.erased().id == old(self).issued(),
            result.erased().ty == T::static_type(),
            final(self).appended(old(self), Opcode::And, seq![a.erased().id, b.erased().id]),
            *final(final(self).context) == *final(old(self).context),
            *final(final(self).basic_block) == *final(old(self).basic_block),
    {
        let ghost args: Seq<VarId> = seq![a.erased().id, b.erased().id];
        proof {
            if in_issue_order(self.block(), self.issued()) {
                lemma_defining_keeps_order(self.block(), self.issued(), Opcode::And, args);
            }
        }
        let destination = self.context.next_id();
        self.basic_block.push(Instruction::and(destination, a.id(), b.id()));
        destination.assume_unchecked()
    }

    /// Bitwise or.
    pub fn build_or<T: BothIntAnyVar>(&mut self, a: T, b: T) -> (result: T)
        requires
            old(self).issued() < u64::MAX,
            old(self).knows(&a),
            old(self).knows(&b),
        ensures
            result.erased().id == old(self).issued(),
            result.erased().ty == T::static_type(),
            final(self).appended(old(self), Opcode::Or, seq![a.erased().id, b.erased().id]),
            *final(final(self).context) == *final(old(self).context),
            *final(final(self).basic_block) == *final(old(self).basic_block),
    {
        let ghost args: Seq<VarId> = seq![a.erased().id, b.erased().id];
        proof {
            if in_issue_order(self.block(), self.issued()) {
                lemma_defining_keeps_order(self.block(), self.issued(), Opcode::Or, args);
            }
        }
        let destination = self.context.next_id();
        self.basic_block.push(Instruction::or(destination, a.id(), b.id()));
        destination.assume_unchecked()
    }

    /// Bitwise exclusive or.
    pub fn build_xor<T: BothIntAnyVar>(&mut self, a: T, b: T) -> (result: T)
        requires
            old(self).issued() < u64::MAX,
            old(self).knows(&a),
            old(self).knows(&b),
        ensures
            result.erased().id == old(self).issued(),
            result.erased().ty == T::static_type(),
            final(self).appended(old(self), Opcode::Xor, seq![a.erased().id, b.erased().id]),
            *final(final(self).context) == *final(old(self).context),
            *final(final(self).basic_block) == *final(old(self).basic_block),
    {
        let ghost args: Seq<VarId> = seq![a.erased().id, b.erased().id];
        proof {
            if in_issue_order(self.block(), self.issued()) {
                lemma_defining_keeps_order(self.block(), self.issued(), Opcode::Xor, args);
            }
        }
        let destination = self.context.next_id();
        self.basic_block.push(Instruction::xor(destination, a.id(), b.id()));
        destination.assume_unchecked()
    }

    /// Bitwise negation.
    pub fn build_not<T: BothIntAnyVar>(&mut self, a: T) -> (result: T)
        requires
            old(self).issued() < u64::MAX,
            old(self).knows(&a),
        ensures
            result.erased().id == old(self).issued(),
            result.erased().ty == T::static_type(),
            final(self).appended(old(self), Opcode::Not, seq![a.erased().id]),
            *final(final(self).context) == *final(old(self).context),
            *final(final(self).basic_block) == *final(old(self).basic_block),
    {
        let ghost args: Seq<VarId> = seq![a.erased().id];
        proof {
            if in_issue_order(self.block(), self.issued()) {
                lemma_defining_keeps_order(self.block(), self.issued(), Opcode::Not, args);
            }
        }
        let destination = self.context.next_id();
        self.basic_block.push(Instruction::not(destination, a.id()));
        destination.assume_unchecked()
    }

    /// One byte of a word, chosen by its index.
    pub fn build_byte(&mut self, index: UIntVar<32>, a: UIntVar<32>) -> (result: UIntVar<1>)
        requires
            old(self).issued() < u64::MAX,
            old(self).knows(&index),
            old(self).knows(&a),
        ensures
            result@.id == old(self).issued(),
            result@.ty == Type::UInt(1),
            final(self).appended(old(self), Opcode::Byte, seq![index@.id, a@.id]),
            *final(final(self).context) == *final(old(self).context),
            *final(final(self).basic_block) == *final(old(self).basic_block),
    {
        let ghost args: Seq<VarId> = seq![index@.id, a@.id];
        proof {
            if in_issue_order(self.block(), self.issued()) {
                lemma_defining_keeps_order(self.block(), self.issued(), Opcode::Byte, args);
            }
        }
        let destination = self.context.next_id();
        self.basic_block.push(Instruction::byte(destination, index.id(), a.id()));
        destination.assume_unchecked()
    }

    /// Shift to the left.
    pub fn build_shl<T: BothIntAnyVar>(&mut self, shift: UIntVar<32>, a: T) -> (result: T)
        requires
            old(self).issued() < u64::MAX,
            old(self).knows(&shift),
            old(self).knows(&a),
        ensures
            result.erased().id == old(self).issued(),
            result.erased().ty == T::static_type(),
            final(self).appended(old(self), Opcode::Shl, seq![shift@.id, a.erased().id]),
            *final(final(self).context) == *final(old(self).context),
            *final(final(self).basic_block) == *final(old(self).basic_block),
    {
        let ghost args: Seq<VarId> = seq![shift@.id, a.erased().id];
        proof {
            if in_issue_order(self.block(), self.issued()) {
                lemma_defining_keeps_order(self.block(), self.issued(), Opcode::Shl, args);
            }
        }
        let destination = self.context.next_id();
        self.basic_block.push(Instruction::shl(destination, shift.id(), a.id()));
        destination.assume_unchecked()
    }

    /// Logical shift to the right.
    pub fn build_shr<T: BothIntAnyVar>(&mut self, shift: UIntVar<32>, a: T) -> (result: T)
        requires
            old(self).issued() < u64::MAX,
            old(self).knows(&shift),
            old(self).knows(&a),
        ensures
            result.erased().id == old(self).issued(),
            result.erased().ty == T::static_type(),
            final(self).appended(old(self), Opcode::Shr, seq![shift@.id, a.erased().id]),
            *final(final(self).context) == *final(old(self).context),
            *final(final(self).basic_block) == *final(old(self).basic_block),
    {
        let ghost args: Seq<VarId> = seq![shift@.id, a.erased().id];
        proof {
            if in_issue_order(self.block(), self.issued()) {
                lemma_defining_keeps_order(self.block(), self.issued(), Opcode::Shr, args);
            }
        }
        let destination = self.context.next_id();
        self.basic_block.push(Instruction::shr(destination, shift.id(), a.id()));
        destination.assume_unchecked()
    }

    /// Arithmetic shift to the right.
    pub fn build_sar<T: BothIntAnyVar>(&mut self, shift: UIntVar<32>, a: T) -> (result: T)
        requires
            old(self).issued() < u64::MAX,
            old(self).knows(&shift),
            old(self).knows(&a),
        ensures
            result.erased().id == old(self).issued(),
            result.erased().ty == T::static_type(),
            final(self).appended(old(self), Opcode::Sar, seq![shift@.id, a.erased().id]),
            *final(final(self).context) == *final(old(self).context),
            *final(final(self).basic_block) == *final(old(self).basic_block),
    {
        let ghost args: Seq<VarId> = seq![shift@.id, a.erased().id];
        proof {
            if in_issue_order(self.block(), self.issued()) {
                lemma_defining_keeps_order(self.block(), self.issued(), Opcode::Sar, args);
            }
        }
        let destination = self.context.next_id();
        self.basic_block.push(Instruction::sar(destination, shift.id(), a.id()));
        destination.assume_unchecked()
    }

    /// Hash of a range of memory.
    pub fn build_sha3(&mut self, offset: PointerVar, size: UIntVar<32>) -> (result: UIntVar<32>)
        requires
            old(self).issued() < u64::MAX,
            old(self).knows(&offset),
            old(self).knows(&size),
        ensures
            result@.id == old(self).issued(),
            result@.ty == Type::UInt(32),
            final(self).appended(old(self), Opcode::Sha3, seq![offset@.id, size@.id]),
            *final(final(self).context) == *final(old(self).context),
            *final(final(self).basic_block) == *final(old(self).basic_block),
    {
        let ghost args: Seq<VarId> = seq![offset@.id, size@.id];
        proof {
            if in_issue_order(self.block(), self.issued()) {
                lemma_defining_keeps_order(self.block(), self.issued(), Opcode::Sha3, args);
            }
        }
        let destination = self.context.next_id();
        self.basic_block.push(Instruction::sha3(destination, offset.id(), size.id()));
        destination.assume_unchecked()
    }

    /// Address of the executing contract.
    pub fn build_address(&mut self) -> (result: UIntVar<20>)
        requires
            old(self).issued() < u64::MAX,
        ensures
            result@.id == old(self).issued(),
            result@.ty == Type::UInt(20),
            final(self).appended(old(self), Opcode::Address, Seq::empty()),
            *final(final(self).context) == *final(old(self).context),
            *final(final(self).basic_block) == *final(old(self).basic_block),
    {
        let ghost args: Seq<VarId> = Seq::empty();
        proof {
            if in_issue_order(self.block(), self.issued()) {
                lemma_defining_keeps_order(self.block(), self.issued(), Opcode::Address, args);
            }
        }
        let destination = self.context.next_id();
        self.basic_block.push(Instruction::address(destination));
        destination.assume_unchecked()
    }

    /// Balance of an account.
    pub fn build_external_balance(&mut self, address: UIntVar<20>) -> (result: UIntVar<32>)
        requires
            old(self).issued() < u64::MAX,
            old(self).knows(&address),
        ensures
            result@.id == old(self).issued(),
            result@.ty == Type::UInt(32),
            final(self).appended(old(self), Opcode::ExternalBalance, seq![address@.id]),
            *final(final(self).context) == *final(old(self).context),
            *final(final(self).basic_block) == *final(old(self).basic_block),
    {
        let ghost args: Seq<VarId> = seq![address@.id];
        proof {
            if in_issue_order(self.block(), self.issued()) {
                lemma_defining_keeps_order(
                    self.block(),
                    self.issued(),
                    Opcode::ExternalBalance,
                    args,
                );
            }
        }
        let destination = self.context.next_id();
        self.basic_block.push(Instruction::external_balance(destination, address.id()));
        destination.assume_unchecked()
    }

    /// Address that the transaction came from.
    pub fn build_tx_origin(&mut self) -> (result: UIntVar<20>)
        requires
            old(self).issued() < u64::MAX,
        ensures
            result@.id == old(self).issued(),
            result@.ty == Type::UInt(20),
            final(self).appended(old(self), Opcode::TxOrigin, Seq::empty()),
            *final(final(self).context) == *final(old(self).context),
            *final(final(self).basic_block) == *final(old(self).basic_block),
    {
        let ghost args: Seq<VarId> = Seq::empty();
        proof {
            if in_issue_order(self.block(), self.issued()) {
                lemma_defining_keeps_order(self.block(), self.issued(), Opcode::TxOrigin, args);
            }
        }
        let destination = self.context.next_id();
        self.basic_block.push(Instruction::tx_origin(destination));
        destination.assume_unchecked()
    }

    /// Address of the caller.
    pub fn build_caller(&mut self) -> (result: UIntVar<20>)
        requires
            old(self).issued() < u64::MAX,
        ensures
            result@.id == old(self).issued(),
            result@.ty == Type::UInt(20),
            final(self).appended(old(self), Opcode::Caller, Seq::empty()),
            *final(final(self).context) == *final(old(self).context),
            *final(final(self).basic_block) == *final(old(self).basic_block),
    {
        let ghost args: Seq<VarId> = Seq::empty();
        proof {
            if in_issue_order(self.block(), self.issued()) {
                lemma_defining_keeps_order(self.block(), self.issued(), Opcode::Caller, args);
            }
        }
        let destination = self.context.next_id();
        self.basic_block.push(Instruction::caller(destination));
        destination.assume_unchecked()
    }

    /// Value that was sent with the call.
    pub fn build_call_value(&mut self) -> (result: UIntVar<32>)
        requires
            old(self).issued() < u64::MAX,
        ensures
            result@.id == old(self).issued(),
            result@.ty == Type::UInt(32),
            final(self).appended(old(self), Opcode::CallValue, Seq::empty()),
            *final(final(self).context) == *final(old(self).context),
            *final(final(self).basic_block) == *final(old(self).basic_block),
    {
        let ghost args: Seq<VarId> = Seq::empty();
        proof {
            if in_issue_order(self.block(), self.issued()) {
                lemma_defining_keeps_order(self.block(), self.issued(), Opcode::CallValue, args);
            }
        }
        let destination = self.context.next_id();
        self.basic_block.push(Instruction::call_value(destination));
        destination.assume_unchecked()
    }

    /// One word of the call data, chosen by its index.
    pub fn build_call_data(&mut self, index: UIntVar<32>) -> (result: UIntVar<32>)
        requires
            old(self).issued() < u64::MAX,
            old(self).knows(&index),
        ensures
            result@.id == old(self).issued(),
            result@.ty == Type::UInt(32),
            final(self).appended(old(self), Opcode::CallData, seq![index@.id]),
            *final(final(self).context) == *final(old(self).context),
            *final(final(self).basic_block) == *final(old(self).basic_block),
    {
        let ghost args: Seq<VarId> = seq![index@.id];
        proof {
            if in_issue_order(self.block(), self.issued()) {
                lemma_defining_keeps_order(self.block(), self.issued(), Opcode::CallData, args);
            }
        }
        let destination = self.context.next_id();
        self.basic_block.push(Instruction::call_data(destination, index.id()));
        destination.assume_unchecked()
    }

    /// Size of the call data.
    pub fn build_call_data_size(&mut self) -> (result: UIntVar<32>)
        requires
            old(self).issued() < u64::MAX,
        ensures
            result@.id == old(self).issued(),
            result@.ty == Type::UInt(32),
            final(self).appended(old(self), Opcode::CallDataSize, Seq::empty()),
            *final(final(self).context) == *final(old(self).context),
            *final(final(self).basic_block) == *final(old(self).basic_block),
    {
        let ghost args: Seq<VarId> = Seq::empty();
        proof {
            if in_issue_order(self.block(), self.issued()) {
                lemma_defining_keeps_order(self.block(), self.issued(), Opcode::CallDataSize, args);
            }
        }
        let destination = self.context.next_id();
        self.basic_block.push(Instruction::call_data_size(destination));
        destination.assume_unchecked()
    }

    /// Copies call data to memory.
    pub fn build_copy_call_data(
        &mut self,
        dest_pointer: PointerVar,
        source_pointer: PointerVar,
        size_in_bytes: UIntVar<32>,
    )
        requires
            old(self).knows(&dest_pointer),
            old(self).knows(&source_pointer),
            old(self).knows(&size_in_bytes),
        ensures
            final(self).appended(
                old(self),
                Opcode::CopyCallData,
                seq![dest_pointer@.id, source_pointer@.id, size_in_bytes@.id],
            ),
            *final(final(self).context) == *final(old(self).context),
            *final(final(self).basic_block) == *final(old(self).basic_block),
    {
        let ghost args: Seq<VarId> = seq![dest_pointer@.id, source_pointer@.id, size_in_bytes@.id];
        proof {
            if in_issue_order(self.block(), self.issued()) {
                lemma_effect_keeps_order(self.block(), self.issued(), Opcode::CopyCallData, args);
            }
        }
        self.basic_block.push(Instruction::copy_call_data(
            dest_pointer.id(),
            source_pointer.id(),
            size_in_bytes.id(),
        ));
    }

    /// Size of the executing code.
    pub fn build_code_size(&mut self) -> (result: UIntVar<32>)
        requires
            old(self).issued() < u64::MAX,
        ensures
            result@.id == old(self).issued(),
            result@.ty == Type::UInt(32),
            final(self).appended(old(self), Opcode::CodeSize, Seq::empty()),
            *final(final(self).context) == *final(old(self).context),
            *final(final(self).basic_block) == *final(old(self).basic_block),
    {
        let ghost args: Seq<VarId> = Seq::empty();
        proof {
            if in_issue_order(self.block(), self.issued()) {
                lemma_defining_keeps_order(self.block(), self.issued(), Opcode::CodeSize, args);
            }
        }
        let destination = self.context.next_id();
        self.basic_block.push(Instruction::code_size(destination));
        destination.assume_unchecked()
    }

    /// Copies executing code to memory.
    pub fn build_copy_code(
        &mut self,
        dest_pointer: PointerVar,
        source_pointer: PointerVar,
        size_in_bytes: UIntVar<32>,
    )
        requires
            old(self).knows(&dest_pointer),
            old(self).knows(&source_pointer),
            old(self).knows(&size_in_bytes),
        ensures
            final(self).appended(
                old(self),
                Opcode::CopyCode,
                seq![dest_pointer@.id, source_pointer@.id, size_in_bytes@.id],
            ),
            *final(final(self).context) == *final(old(self).context),
            *final(final(self).basic_block) == *final(old(self).basic_block),
    {
        let ghost args: Seq<VarId> = seq![dest_pointer@.id, source_pointer@.id, size_in_bytes@.id];
        proof {
            if in_issue_order(self.block(), self.issued()) {
                lemma_effect_keeps_order(self.block(), self.issued(), Opcode::CopyCode, args);
            }
        }
        self.basic_block.push(Instruction::copy_code(
            dest_pointer.id(),
            source_pointer.id(),
            size_in_bytes.id(),
        ));
    }

    /// Gas price of the transaction.
    pub fn build_tx_gas_price(&mut self) -> (result: UIntVar<32>)
        requires
            old(self).issued() < u64::MAX,
        ensures
            result@.id == old(self).issued(),
            result@.ty == Type::UInt(32),
            final(self).appended(old(self), Opcode::TxGasPrice, Seq::empty()),
            *final(final(self).context) == *final(old(self).context),
            *final(final(self).basic_block) == *final(old(self).basic_block),
    {
        let ghost args: Seq<VarId> = Seq::empty();
        proof {
            if in_issue_order(self.block(), self.issued()) {
                lemma_defining_keeps_order(self.block(), self.issued(), Opcode::TxGasPrice, args);
            }
        }
        let destination = self.context.next_id();
        self.basic_block.push(Instruction::tx_gas_price(destination));
        destination.assume_unchecked()
    }

    /// Size of an account's code.
    pub fn build_external_code_size(&mut self, address: UIntVar<20>) -> (result: UIntVar<32>)
        requires
            old(self).issued() < u64::MAX,
            old(self).knows(&address),
        ensures
            result@.id == old(self).issued(),
            result@.ty == Type::UInt(32),
            final(self).appended(old(self), Opcode::ExternalCodeSize, seq![address@.id]),
            *final(final(self).context) == *final(old(self).context),
            *final(final(self).basic_block) == *final(old(self).basic_block),
    {
        let ghost args: Seq<VarId> = seq![address@.id];
        proof {
            if in_issue_order(self.block(), self.issued()) {
                lemma_defining_keeps_order(
                    self.block(),
                    self.issued(),
                    Opcode::ExternalCodeSize,
                    args,
                );
            }
        }
        let destination = self.context.next_id();
        self.basic_block.push(Instruction::external_code_size(destination, address.id()));
        destination.assume_unchecked()
    }

    /// Copies an account's code to memory.
    pub fn build_copy_external_code(
        &mut self,
        address: UIntVar<20>,
        dest_pointer: PointerVar,
        source_pointer: PointerVar,
        size_in_bytes: UIntVar<32>,
    )
        requires
            old(self).knows(&address),
            old(self).knows(&dest_pointer),
            old(self).knows(&source_pointer),
            old(self).knows(&size_in_bytes),
        ensures
            final(self).appended(
                old(self),
                Opcode::CopyExternalCode,
                seq![address@.id, dest_pointer@.id, source_pointer@.id, size_in_bytes@.id],
            ),
            *final(final(self).context) == *final(old(self).context),
            *final(final(self).basic_block) == *final(old(self).basic_block),
    {
        let ghost args: Seq<VarId> = seq![
            address@.id,
            dest_pointer@.id,
            source_pointer@.id,
            size_in_bytes@.id,
        ];
        proof {
            if in_issue_order(self.block(), self.issued()) {
                lemma_effect_keeps_order(
                    self.block(),
                    self.issued(),
                    Opcode::CopyExternalCode,
                    args,
                );
            }
        }
        self.basic_block.push(Instruction::copy_external_code(
            address.id(),
            dest_pointer.id(),
            source_pointer.id(),
            size_in_bytes.id(),
        ));
    }

    /// Size of the data that the last call returned.
    pub fn build_return_data_size(&mut self) -> (result: UIntVar<32>)
        requires
            old(self).issued() < u64::MAX,
        ensures
            result@.id == old(self).issued(),
            result@.ty == Type::UInt(32),
            final(self).appended(old(self), Opcode::ReturnDataSize, Seq::empty()),
            *final(final(self).context) == *final(old(self).context),
            *final(final(self).basic_block) == *final(old(self).basic_block),
    {
        let ghost args: Seq<VarId> = Seq::empty();
        proof {
            if in_issue_order(self.block(), self.issued()) {
                lemma_defining_keeps_order(
                    self.block(),
                    self.issued(),
                    Opcode::ReturnDataSize,
                    args,
                );
            }
        }
        let destination = self.context.next_id();
        self.basic_block.push(Instruction::return_data_size(destination));
        destination.assume_unchecked()
    }

    /// Copies data that the last call returned to memory.
    pub fn build_copy_return_data(
        &mut self,
        dest_pointer: PointerVar,
        source_pointer: PointerVar,
        size_in_bytes: UIntVar<32>,
    )
        requires
            old(self).knows(&dest_pointer),
            old(self).knows(&source_pointer),
            old(self).knows(&size_in_bytes),
        ensures
            final(self).appended(
                old(self),
                Opcode::CopyReturnData,
                seq![dest_pointer@.id, source_pointer@.id, size_in_bytes@.id],
            ),
            *final(final(self).context) == *final(old(self).context),
            *final(final(self).basic_block) == *final(old(self).basic_block),
    {
        let ghost args: Seq<VarId> = seq![dest_pointer@.id, source_pointer@.id, size_in_bytes@.id];
        proof {
            if in_issue_order(self.block(), self.issued()) {
                lemma_effect_keeps_order(self.block(), self.issued(), Opcode::CopyReturnData, args);
            }
        }
        self.basic_block.push(Instruction::copy_return_data(
            dest_pointer.id(),
            source_pointer.id(),
            size_in_bytes.id(),
        ));
    }

    /// Hash of an account's code.
    pub fn build_external_code_hash(&mut self, address: UIntVar<20>) -> (result: UIntVar<32>)
        requires
            old(self).issued() < u64::MAX,
            old(self).knows(&address),
        ensures
            result@.id == old(self).issued(),
            result@.ty == Type::UInt(32),
            final(self).appended(old(self), Opcode::ExternalCodeHash, seq![address@.id]),
            *final(final(self).context) == *final(old(self).context),
            *final(final(self).basic_block) == *final(old(self).basic_block),
    {
        let ghost args: Seq<VarId> = seq![address@.id];
        proof {
            if in_issue_order(self.block(), self.issued()) {
                lemma_defining_keeps_order(
                    self.block(),
                    self.issued(),
                    Opcode::ExternalCodeHash,
                    args,
                );
            }
        }
        let destination = self.context.next_id();
        self.basic_block.push(Instruction::external_code_hash(destination, address.id()));
        destination.assume_unchecked()
    }

    /// Hash of a recent block, chosen by its number.
    pub fn build_block_hash(&mut self, block_number: UIntVar<32>) -> (result: UIntVar<32>)
        requires
            old(self).issued() < u64::MAX,
            old(self).knows(&block_number),
        ensures
            result@.id == old(self).issued(),
            result@.ty == Type::UInt(32),
            final(self).appended(old(self), Opcode::BlockHash, seq![block_number@.id]),
            *final(final(self).context) == *final(old(self).context),
            *final(final(self).basic_block) == *final(old(self).basic_block),
    {
        let ghost args: Seq<VarId> = seq![block_number@.id];
        proof {
            if in_issue_order(self.block(), self.issued()) {
                lemma_defining_keeps_order(self.block(), self.issued(), Opcode::BlockHash, args);
            }
        }
        let destination = self.context.next_id();
        self.basic_block.push(Instruction::block_hash(destination, block_number.id()));
        destination.assume_unchecked()
    }

    /// Beneficiary address of the current block.
    pub fn build_block_coinbase(&mut self) -> (result: UIntVar<20>)
        requires
            old(self).issued() < u64::MAX,
        ensures
            result@.id == old(self).issued(),
            result@.ty == Type::UInt(20),
            final(self).appended(old(self), Opcode::BlockCoinbase, Seq::empty()),
            *final(final(self).context) == *final(old(self).context),
            *final(final(self).basic_block) == *final(old(self).basic_block),
    {
        let ghost args: Seq<VarId> = Seq::empty();
        proof {
            if in_issue_order(self.block(), self.issued()) {
                lemma_defining_keeps_order(
                    self.block(),
                    self.issued(),
                    Opcode::BlockCoinbase,
                    args,
                );
            }
        }
        let destination = self.context.next_id();
        self.basic_block.push(Instruction::block_coinbase(destination));
        destination.assume_unchecked()
    }

    /// Timestamp of the current block.
    pub fn build_block_timestamp(&mut self) -> (result: UIntVar<32>)
        requires
            old(self).issued() < u64::MAX,
        ensures
            result@.id == old(self).issued(),
            result@.ty == Type::UInt(32),
            final(self).appended(old(self), Opcode::BlockTimestamp, Seq::empty()),
            *final(final(self).context) == *final(old(self).context),
            *final(final(self).basic_block) == *final(old(self).basic_block),
    {
        let ghost args: Seq<VarId> = Seq::empty();
        proof {
            if in_issue_order(self.block(), self.issued()) {
                lemma_defining_keeps_order(
                    self.block(),
                    self.issued(),
                    Opcode::BlockTimestamp,
                    args,
                );
            }
        }
        let destination = self.context.next_id();
        self.basic_block.push(Instruction::block_timestamp(destination));
        destination.assume_unchecked()
    }

    /// Number of the current block.
    pub fn build_block_number(&mut self) -> (result: UIntVar<32>)
        requires
            old(self).issued() < u64::MAX,
        ensures
            result@.id == old(self).issued(),
            result@.ty == Type::UInt(32),
            final(self).appended(old(self), Opcode::BlockNumber, Seq::empty()),
            *final(final(self).context) == *final(old(self).context),
            *final(final(self).basic_block) == *final(old(self).basic_block),
    {
        let ghost args: Seq<VarId> = Seq::empty();
        proof {
            if in_issue_order(self.block(), self.issued()) {
                lemma_defining_keeps_order(self.block(), self.issued(), Opcode::BlockNumber, args);
            }
        }
        let destination = self.context.next_id();
        self.basic_block.push(Instruction::block_number(destination));
        destination.assume_unchecked()
    }

    /// Difficulty of the current block.
    pub fn build_block_difficulty(&mut self) -> (result: UIntVar<32>)
        requires
            old(self).issued() < u64::MAX,
        ensures
            result@.id == old(self).issued(),
            result@.ty == Type::UInt(32),
            final(self).appended(old(self), Opcode::BlockDifficulty, Seq::empty()),
            *final(final(self).context) == *final(old(self).context),
            *final(final(self).basic_block) == *final(old(self).basic_block),
    {
        let ghost args: Seq<VarId> = Seq::empty();
        proof {
            if in_issue_order(self.block(), self.issued()) {
                lemma_defining_keeps_order(
                    self.block(),
                    self.issued(),
                    Opcode::BlockDifficulty,
                    args,
                );
            }
        }
        let destination = self.context.next_id();
        self.basic_block.push(Instruction::block_difficulty(destination));
        destination.assume_unchecked()
    }

    /// Gas limit of the current block.
    pub fn build_block_gas_limit(&mut self) -> (result: UIntVar<32>)
        requires
            old(self).issued() < u64::MAX,
        ensures
            result@.id == old(self).issued(),
            result@.ty == Type::UInt(32),
            final(self).appended(old(self), Opcode::BlockGasLimit, Seq::empty()),
            *final(final(self).context) == *final(old(self).context),
            *final(final(self).basic_block) == *final(old(self).basic_block),
    {
        let ghost args: Seq<VarId> = Seq::empty();
        proof {
            if in_issue_order(self.block(), self.issued()) {
                lemma_defining_keeps_order(
                    self.block(),
                    self.issued(),
                    Opcode::BlockGasLimit,
                    args,
                );
            }
        }
        let destination = self.context.next_id();
        self.basic_block.push(Instruction::block_gas_limit(destination));
        destination.assume_unchecked()
    }

    /// Identifier of the chain.
    pub fn build_chain_id(&mut self) -> (result: UIntVar<32>)
        requires
            old(self).issued() < u64::MAX,
        ensures
            result@.id == old(self).issued(),
            result@.ty == Type::UInt(32),
            final(self).appended(old(self), Opcode::ChainId, Seq::empty()),
            *final(final(self).context) == *final(old(self).context),
            *final(final(self).basic_block) == *final(old(self).basic_block),
    {
        let ghost args: Seq<VarId> = Seq::empty();
        proof {
            if in_issue_order(self.block(), self.issued()) {
                lemma_defining_keeps_order(self.block(), self.issued(), Opcode::ChainId, args);
            }
        }
        let destination = self.context.next_id();
        self.basic_block.push(Instruction::chain_id(destination));
        destination.assume_unchecked()
    }

    /// Balance of the executing contract.
    pub fn build_balance(&mut self) -> (result: UIntVar<32>)
        requires
            old(self).issued() < u64::MAX,
        ensures
            result@.id == old(self).issued(),
            result@.ty == Type::UInt(32),
            final(self).appended(old(self), Opcode::Balance, Seq::empty()),
            *final(final(self).context) == *final(old(self).context),
            *final(final(self).basic_block) == *final(old(self).basic_block),
    {
        let ghost args: Seq<VarId> = Seq::empty();
        proof {
            if in_issue_order(self.block(), self.issued()) {
                lemma_defining_keeps_order(self.block(), self.issued(), Opcode::Balance, args);
            }
        }
        let destination = self.context.next_id();
        self.basic_block.push(Instruction::balance(destination));
        destination.assume_unchecked()
    }

    /// Base fee of the current block.
    pub fn build_base_fee(&mut self) -> (result: UIntVar<32>)
        requires
            old(self).issued() < u64::MAX,
        ensures
            result@.id == old(self).issued(),
            result@.ty == Type::UInt(32),
            final(self).appended(old(self), Opcode::BaseFee, Seq::empty()),
            *final(final(self).context) == *final(old(self).context),
            *final(final(self).basic_block) == *final(old(self).basic_block),
    {
        let ghost args: Seq<VarId> = Seq::empty();
        proof {
            if in_issue_order(self.block(), self.issued()) {
                lemma_defining_keeps_order(self.block(), self.issued(), Opcode::BaseFee, args);
            }
        }
        let destination = self.context.next_id();
        self.basic_block.push(Instruction::base_fee(destination));
        destination.assume_unchecked()
    }

    /// Loads a word from memory.
    pub fn build_load(&mut self) -> (result: UIntVar<32>)
        requires
            old(self).issued() < u64::MAX,
        ensures
            result@.id == old(self).issued(),
            result@.ty == Type::UInt(32),
            final(self).appended(old(self), Opcode::Load, Seq::empty()),
            *final(final(self).context) == *final(old(self).context),
            *final(final(self).basic_block) == *final(old(self).basic_block),
    {
        let ghost args: Seq<VarId> = Seq::empty();
        proof {
            if in_issue_order(self.block(), self.issued()) {
                lemma_defining_keeps_order(self.block(), self.issued(), Opcode::Load, args);
            }
        }
        let destination = self.context.next_id();
        self.basic_block.push(Instruction::load(destination));
        destination.assume_unchecked()
    }

    /// Stores a word to memory.
    pub fn build_store(&mut self)
        ensures
            final(self).appended(old(self), Opcode::Store, Seq::empty()),
            *final(final(self).context) == *final(old(self).context),
            *final(final(self).basic_block) == *final(old(self).basic_block),
    {
        let ghost args: Seq<VarId> = Seq::empty();
        proof {
            if in_issue_order(self.block(), self.issued()) {
                lemma_effect_keeps_order(self.block(), self.issued(), Opcode::Store, args);
            }
        }
        self.basic_block.push(Instruction::store());
    }

    /// Stores a byte to memory.
    pub fn build_store8(&mut self)
        ensures
            final(self).appended(old(self), Opcode::Store8, Seq::empty()),
            *final(final(self).context) == *final(old(self).context),
            *final(final(self).basic_block) == *final(old(self).basic_block),
    {
        let ghost args: Seq<VarId> = Seq::empty();
        proof {
            if in_issue_order(self.block(), self.issued()) {
                lemma_effect_keeps_order(self.block(), self.issued(), Opcode::Store8, args);
            }
        }
        self.basic_block.push(Instruction::store8());
    }

    /// Loads a word from storage.
    pub fn build_load_storage(&mut self) -> (result: UIntVar<32>)
        requires
            old(self).issued() < u64::MAX,
        ensures
            result@.id == old(self).issued(),
            result@.ty == Type::UInt(32),
            final(self).appended(old(self), Opcode::LoadStorage, Seq::empty()),
            *final(final(self).context) == *final(old(self).context),
            *final(final(self).basic_block) == *final(old(self).basic_block),
    {
        let ghost args: Seq<VarId> = Seq::empty();
        proof {
            if in_issue_order(self.block(), self.issued()) {
                lemma_defining_keeps_order(self.block(), self.issued(), Opcode::LoadStorage, args);
            }
        }
        let destination = self.context.next_id();
        self.basic_block.push(Instruction::load_storage(destination));
        destination.assume_unchecked()
    }

    /// Stores a word to storage.
    pub fn build_store_storage(&mut self)
        ensures
            final(self).appended(old(self), Opcode::StoreStorage, Seq::empty()),
            *final(final(self).context) == *final(old(self).context),
            *final(final(self).basic_block) == *final(old(self).basic_block),
    {
        let ghost args: Seq<VarId> = Seq::empty();
        proof {
            if in_issue_order(self.block(), self.issued()) {
                lemma_effect_keeps_order(self.block(), self.issued(), Opcode::StoreStorage, args);
            }
        }
        self.basic_block.push(Instruction::store_storage());
    }

    /// Jumps to a position in the code.
    pub fn build_jump(&mut self, counter: UIntVar<32>)
        requires
            old(self).knows(&counter),
        ensures
            final(self).appended(old(self), Opcode::Jump, seq![counter@.id]),
            *final(final(self).context) == *final(old(self).context),
            *final(final(self).basic_block) == *final(old(self).basic_block),
    {
        let ghost args: Seq<VarId> = seq![counter@.id];
        proof {
            if in_issue_order(self.block(), self.issued()) {
                lemma_effect_keeps_order(self.block(), self.issued(), Opcode::Jump, args);
            }
        }
        self.basic_block.push(Instruction::jump(counter.id()));
    }

    /// Size of the memory in use.
    pub fn build_memory_size(&mut self) -> (result: UIntVar<32>)
        requires
            old(self).issued() < u64::MAX,
        ensures
            result@.id == old(self).issued(),
            result@.ty == Type::UInt(32),
            final(self).appended(old(self), Opcode::MemorySize, Seq::empty()),
            *final(final(self).context) == *final(old(self).context),
            *final(final(self).basic_block) == *final(old(self).basic_block),
    {
        let ghost args: Seq<VarId> = Seq::empty();
        proof {
            if in_issue_order(self.block(), self.issued()) {
                lemma_defining_keeps_order(self.block(), self.issued(), Opcode::MemorySize, args);
            }
        }
        let destination = self.context.next_id();
        self.basic_block.push(Instruction::memory_size(destination));
        destination.assume_unchecked()
    }

    /// Gas that is left.
    pub fn build_gas_left(&mut self) -> (result: UIntVar<32>)
        requires
            old(self).issued() < u64::MAX,
        ensures
            result@.id == old(self).issued(),
            result@.ty == Type::UInt(32),
            final(self).appended(old(self), Opcode::GasLeft, Seq::empty()),
            *final(final(self).context) == *final(old(self).context),
            *final(final(self).basic_block) == *final(old(self).basic_block),
    {
        let ghost args: Seq<VarId> = Seq::empty();
        proof {
            if in_issue_order(self.block(), self.issued()) {
                lemma_defining_keeps_order(self.block(), self.issued(), Opcode::GasLeft, args);
            }
        }
        let destination = self.context.next_id();
        self.basic_block.push(Instruction::gas_left(destination));
        destination.assume_unchecked()
    }

    /// Creates a contract from code in memory.
    pub fn build_create(
        &mut self,
        value: UIntVar<32>,
        pointer: PointerVar,
        size_in_bytes: UIntVar<32>,
    ) -> (result: UIntVar<20>)
        requires
            old(self).issued() < u64::MAX,
            old(self).knows(&value),
            old(self).knows(&pointer),
            old(self).knows(&size_in_bytes),
        ensures
            result@.id == old(self).issued(),
            result@.ty == Type::UInt(20),
            final(self).appended(
                old(self),
                Opcode::Create,
                seq![value@.id, pointer@.id, size_in_bytes@.id],
            ),
            *final(final(self).context) == *final(old(self).context),
            *final(final(self).basic_block) == *final(old(self).basic_block),
    {
        let ghost args: Seq<VarId> = seq![value@.id, pointer@.id, size_in_bytes@.id];
        proof {
            if in_issue_order(self.block(), self.issued()) {
                lemma_defining_keeps_order(self.block(), self.issued(), Opcode::Create, args);
            }
        }
        let destination = self.context.next_id();
        self.basic_block.push(Instruction::create(
            destination,
            value.id(),
            pointer.id(),
            size_in_bytes.id(),
        ));
        destination.assume_unchecked()
    }

    /// Calls an account.
    #[allow(clippy::too_many_arguments)]
    pub fn build_call(
        &mut self,
        gas: UIntVar<32>,
        address: UIntVar<20>,
        value: UIntVar<32>,
        args_pointer: PointerVar,
        args_size_in_bytes: UIntVar<32>,
        return_pointer: PointerVar,
        return_size_in_bytes: UIntVar<32>,
    ) -> (result: BoolVar)
        requires
            old(self).issued() < u64::MAX,
            old(self).knows(&gas),
            old(self).knows(&address),
            old(self).knows(&value),
            old(self).knows(&args_pointer),
            old(self).knows(&args_size_in_bytes),
            old(self).knows(&return_pointer),
            old(self).knows(&return_size_in_bytes),
        ensures
            result@.id == old(self).issued(),
            result@.ty == Type::Bool,
            final(self).appended(
                old(self),
                Opcode::Call,
                seq![
                    gas@.id,
                    address@.id,
                    value@.id,
                    args_pointer@.id,
                    args_size_in_bytes@.id,
                    return_pointer@.id,
                    return_size_in_bytes@.id,
                ],
            ),
            *final(final(self).context) == *final(old(self).context),
            *final(final(self).basic_block) == *final(old(self).basic_block),
    {
        let ghost args: Seq<VarId> = seq![
            gas@.id,
            address@.id,
            value@.id,
            args_pointer@.id,
            args_size_in_bytes@.id,
            return_pointer@.id,
            return_size_in_bytes@.id,
        ];
        proof {
            if in_issue_order(self.block(), self.issued()) {
                lemma_defining_keeps_order(self.block(), self.issued(), Opcode::Call, args);
            }
        }
        let destination = self.context.next_id();
        self.basic_block.push(Instruction::call(
            destination,
            gas.id(),
            address.id(),
            value.id(),
            args_pointer.id(),
            args_size_in_bytes.id(),
            return_pointer.id(),
            return_size_in_bytes.id(),
        ));
        destination.assume_unchecked()
    }

    /// Calls an account's code on the storage of the executing contract.
    #[allow(clippy::too_many_arguments)]
    pub fn build_call_code(
        &mut self,
        gas: UIntVar<32>,
        address: UIntVar<20>,
        value: UIntVar<32>,
        args_pointer: PointerVar,
        args_size_in_bytes: UIntVar<32>,
        return_pointer: PointerVar,
        return_size_in_bytes: UIntVar<32>,
    ) -> (result: BoolVar)
        requires
            old(self).issued() < u64::MAX,
            old(self).knows(&gas),
            old(self).knows(&address),
            old(self).knows(&value),
            old(self).knows(&args_pointer),
            old(self).knows(&args_size_in_bytes),
            old(self).knows(&return_pointer),
            old(self).knows(&return_size_in_bytes),
        ensures
            result@.id == old(self).issued(),
            result@.ty == Type::Bool,
            final(self).appended(
                old(self),
                Opcode::CallCode,
                seq![
                    gas@.id,
                    address@.id,
                    value@.id,
                    args_pointer@.id,
                    args_size_in_bytes@.id,
                    return_pointer@.id,
                    return_size_in_bytes@.id,
                ],
            ),
            *final(final(self).context) == *final(old(self).context),
            *final(final(self).basic_block) == *final(old(self).basic_block),
    {
        let ghost args: Seq<VarId> = seq![
            gas@.id,
            address@.id,
            value@.id,
            args_pointer@.id,
            args_size_in_bytes@.id,
            return_pointer@.id,
            return_size_in_bytes@.id,
        ];
        proof {
            if in_issue_order(self.block(), self.issued()) {
                lemma_defining_keeps_order(self.block(), self.issued(), Opcode::CallCode, args);
            }
        }
        let destination = self.context.next_id();
        self.basic_block.push(Instruction::call_code(
            destination,
            gas.id(),
            address.id(),
            value.id(),
            args_pointer.id(),
            args_size_in_bytes.id(),
            return_pointer.id(),
            return_size_in_bytes.id(),
        ));
        destination.assume_unchecked()
    }

    /// Ends execution and returns a range of memory.
    pub fn build_finish(&mut self, offset: PointerVar, length: UIntVar<32>)
        requires
            old(self).knows(&offset),
            old(self).knows(&length),
        ensures
            final(self).appended(old(self), Opcode::Finish, seq![offset@.id, length@.id]),
            *final(final(self).context) == *final(old(self).context),
            *final(final(self).basic_block) == *final(old(self).basic_block),
    {
        let ghost args: Seq<VarId> = seq![offset@.id, length@.id];
        proof {
            if in_issue_order(self.block(), self.issued()) {
                lemma_effect_keeps_order(self.block(), self.issued(), Opcode::Finish, args);
            }
        }
        self.basic_block.push(Instruction::finish(offset.id(), length.id()));
    }

    /// Calls an account's code, keeping caller and value.
    #[allow(clippy::too_many_arguments)]
    pub fn build_call_delegate(
        &mut self,
        gas: UIntVar<32>,
        address: UIntVar<20>,
        args_pointer: PointerVar,
        args_size_in_bytes: UIntVar<32>,
        return_pointer: PointerVar,
        return_size_in_bytes: UIntVar<32>,
    ) -> (result: BoolVar)
        requires
            old(self).issued() < u64::MAX,
            old(self).knows(&gas),
            old(self).knows(&address),
            old(self).knows(&args_pointer),
            old(self).knows(&args_size_in_bytes),
            old(self).knows(&return_pointer),
            old(self).knows(&return_size_in_bytes),
        ensures
            result@.id == old(self).issued(),
            result@.ty == Type::Bool,
            final(self).appended(
                old(self),
                Opcode::CallDelegate,
                seq![
                    gas@.id,
                    address@.id,
                    args_pointer@.id,
                    args_size_in_bytes@.id,
                    return_pointer@.id,
                    return_size_in_bytes@.id,
                ],
            ),
            *final(final(self).context) == *final(old(self).context),
            *final(final(self).basic_block) == *final(old(self).basic_block),
    {
        let ghost args: Seq<VarId> = seq![
            gas@.id,
            address@.id,
            args_pointer@.id,
            args_size_in_bytes@.id,
            return_pointer@.id,
            return_size_in_bytes@.id,
        ];
        proof {
            if in_issue_order(self.block(), self.issued()) {
                lemma_defining_keeps_order(self.block(), self.issued(), Opcode::CallDelegate, args);
            }
        }
        let destination = self.context.next_id();
        self.basic_block.push(Instruction::call_delegate(
            destination,
            gas.id(),
            address.id(),
            args_pointer.id(),
            args_size_in_bytes.id(),
            return_pointer.id(),
            return_size_in_bytes.id(),
        ));
        destination.assume_unchecked()
    }

    /// Calls an account without letting it change state.
    #[allow(clippy::too_many_arguments)]
    pub fn build_call_static(
        &mut self,
        gas: UIntVar<32>,
        address: UIntVar<20>,
        args_pointer: PointerVar,
        args_size_in_bytes: UIntVar<32>,
        return_pointer: PointerVar,
        return_size_in_bytes: UIntVar<32>,
    ) -> (result: BoolVar)
        requires
            old(self).issued() < u64::MAX,
            old(self).knows(&gas),
            old(self).knows(&address),
            old(self).knows(&args_pointer),
            old(self).knows(&args_size_in_bytes),
            old(self).knows(&return_pointer),
            old(self).knows(&return_size_in_bytes),
        ensures
            result@.id == old(self).issued(),
            result@.ty == Type::Bool,
            final(self).appended(
                old(self),
                Opcode::CallStatic,
                seq![
                    gas@.id,
                    address@.id,
                    args_pointer@.id,
                    args_size_in_bytes@.id,
                    return_pointer@.id,
                    return_size_in_bytes@.id,
                ],
            ),
            *final(final(self).context) == *final(old(self).context),
            *final(final(self).basic_block) == *final(old(self).basic_block),
    {
        let ghost args: Seq<VarId> = seq![
            gas@.id,
            address@.id,
            args_pointer@.id,
            args_size_in_bytes@.id,
            return_pointer@.id,
            return_size_in_bytes@.id,
        ];
        proof {
            if in_issue_order(self.block(), self.issued()) {
                lemma_defining_keeps_order(self.block(), self.issued(), Opcode::CallStatic, args);
            }
        }
        let destination = self.context.next_id();
        self.basic_block.push(Instruction::call_static(
            destination,
            gas.id(),
            address.id(),
            args_pointer.id(),
            args_size_in_bytes.id(),
            return_pointer.id(),
            return_size_in_bytes.id(),
        ));
        destination.assume_unchecked()
    }

    /// Ends execution, undoes its changes and returns a range of memory.
    pub fn build_revert(&mut self, pointer: PointerVar, size_in_bytes: UIntVar<32>)
        requires
            old(self).knows(&pointer),
            old(self).knows(&size_in_bytes),
        ensures
            final(self).appended(old(self), Opcode::Revert, seq![pointer@.id, size_in_bytes@.id]),
            *final(final(self).context) == *final(old(self).context),
            *final(final(self).basic_block) == *final(old(self).basic_block),
    {
        let ghost args: Seq<VarId> = seq![pointer@.id, size_in_bytes@.id];
        proof {
            if in_issue_order(self.block(), self.issued()) {
                lemma_effect_keeps_order(self.block(), self.issued(), Opcode::Revert, args);
            }
        }
        self.basic_block.push(Instruction::revert(pointer.id(), size_in_bytes.id()));
    }

    /// Ends execution and gives the balance of the contract to an account.
    pub fn build_self_destruct(&mut self, address: UIntVar<20>)
        requires
            old(self).knows(&address),
        ensures
            final(self).appended(old(self), Opcode::SelfDestruct, seq![address@.id]),
            *final(final(self).context) == *final(old(self).context),
            *final(final(self).basic_block) == *final(old(self).basic_block),
    {
        let ghost args: Seq<VarId> = seq![address@.id];
        proof {
            if in_issue_order(self.block(), self.issued()) {
                lemma_effect_keeps_order(self.block(), self.issued(), Opcode::SelfDestruct, args);
            }
        }
        self.basic_block.push(Instruction::self_destruct(address.id()));
    }
}

} // verus!
