//! Definition before use, as a property of instruction sequences.
//!
//! A context issues the identifiers 0, 1, 2, ... in turn, so the identifiers
//! issued before some moment are exactly those below the number issued by
//! then. A block is *in issue order* when it could have been built by calls
//! that each took their operands from identifiers issued earlier and named
//! their result with the identifier issued next.

use vstd::prelude::*;

use super::instruction::{defining, effect_only, InstructionView, Opcode};
use super::variable::VarId;

verus! {

/// Every identifier in `args` is among the first `issued` identifiers.
pub open spec fn operands_issued(args: Seq<VarId>, issued: nat) -> bool {
    forall|k: int| 0 <= k < args.len() ==> #[trigger] args[k] < issued
}

/// `block` could have been built, instruction by instruction, against one
/// context that has by now issued `issued` identifiers:
/// - every identifier in it has been issued;
/// - an operand is never the result of its own instruction or of a later
///   one, and is older than every such result;
/// - results are named in increasing order, so that none is named twice.
pub open spec fn in_issue_order(block: Seq<InstructionView>, issued: nat) -> bool {
    &&& forall|i: int|
        0 <= i < block.len() ==> operands_issued(#[trigger] block[i].args, issued)
    &&& forall|i: int|
        0 <= i < block.len() ==> (#[trigger] block[i].destination matches Some(d) ==> d < issued)
    &&& forall|i: int, j: int|
        0 <= i <= j < block.len() ==> (#[trigger] block[j].destination matches Some(d)
            ==> operands_issued(#[trigger] block[i].args, d as nat))
    &&& forall|i: int, j: int|
        0 <= i < j < block.len() ==> (#[trigger] block[i].destination matches Some(d1) ==> (
        #[trigger] block[j].destination matches Some(d2) ==> d1 < d2))
}

/// The identifiers that the instructions of `block` name as their results.
pub open spec fn definitions(block: Seq<InstructionView>) -> Set<VarId> {
    Set::new(
        |id: VarId|
            exists|i: int| 0 <= i < block.len() && #[trigger] block[i].destination == Some(id),
    )
}

/// A block that was empty holds, after one `finish` instruction was
/// appended, exactly that instruction: no destination, and the offset and
/// the length as its operands, in that order.
pub proof fn lemma_finish_on_empty_block(offset: VarId, length: VarId)
    ensures
        ({
            let block = Seq::<InstructionView>::empty().push(
                effect_only(Opcode::Finish, seq![offset, length]),
            );
            &&& block.len() == 1
            &&& block[0].opcode == Opcode::Finish
            &&& block[0].destination is None
            &&& block[0].args == seq![offset, length]
            &&& block[0].well_formed()
        }),
{
}

/// An empty block defines nothing.
pub proof fn lemma_empty_block_defines_nothing()
    ensures
        definitions(Seq::empty()) == Set::<VarId>::empty(),
{
    assert(definitions(Seq::empty()) =~= Set::<VarId>::empty());
}

/// An empty block is in issue order, whatever has been issued.
pub proof fn lemma_empty_block_in_order(issued: nat)
    ensures
        in_issue_order(Seq::empty(), issued),
{
}

/// A block in issue order stays so while the context issues on, to whomever.
pub proof fn lemma_order_outlasts_issuing(block: Seq<InstructionView>, issued: nat, later: nat)
    requires
        in_issue_order(block, issued),
        issued <= later,
    ensures
        in_issue_order(block, later),
{
}

/// Appending an instruction that takes issued operands and names its result
/// with the identifier issued next keeps a block in issue order.
pub proof fn lemma_defining_keeps_order(
    block: Seq<InstructionView>,
    issued: nat,
    opcode: Opcode,
    args: Seq<VarId>,
)
    requires
        in_issue_order(block, issued),
        operands_issued(args, issued),
        issued <= u64::MAX,
    ensures
        in_issue_order(block.push(defining(opcode, issued as VarId, args)), issued + 1),
{
    let after = block.push(defining(opcode, issued as VarId, args));
    assert forall|i: int, j: int| 0 <= i <= j < after.len() implies (
    #[trigger] after[j].destination matches Some(d) ==> operands_issued(
        #[trigger] after[i].args,
        d as nat,
    )) by {
        if j < block.len() {
            assert(after[j] == block[j]);
            assert(after[i] == block[i]);
        } else if i < block.len() {
            assert(after[i] == block[i]);
        }
    }
    assert forall|i: int, j: int| 0 <= i < j < after.len() implies (
    #[trigger] after[i].destination matches Some(d1) ==> (
    #[trigger] after[j].destination matches Some(d2) ==> d1 < d2)) by {
        assert(after[i] == block[i]);
        if j < block.len() {
            assert(after[j] == block[j]);
        }
    }
    assert forall|i: int| 0 <= i < after.len() implies operands_issued(
        #[trigger] after[i].args,
        issued + 1,
    ) by {
        if i < block.len() {
            assert(after[i] == block[i]);
        }
    }
    assert forall|i: int| 0 <= i < after.len() implies (
    #[trigger] after[i].destination matches Some(d) ==> d < issued + 1) by {
        if i < block.len() {
            assert(after[i] == block[i]);
        }
    }
}

/// Appending an instruction that takes issued operands and has no result
/// keeps a block in issue order.
pub proof fn lemma_effect_keeps_order(
    block: Seq<InstructionView>,
    issued: nat,
    opcode: Opcode,
    args: Seq<VarId>,
)
    requires
        in_issue_order(block, issued),
        operands_issued(args, issued),
    ensures
        in_issue_order(block.push(effect_only(opcode, args)), issued),
{
    let after = block.push(effect_only(opcode, args));
    assert forall|i: int, j: int| 0 <= i <= j < after.len() implies (
    #[trigger] after[j].destination matches Some(d) ==> operands_issued(
        #[trigger] after[i].args,
        d as nat,
    )) by {
        if j < block.len() {
            assert(after[j] == block[j]);
            assert(after[i] == block[i]);
        }
    }
    assert forall|i: int, j: int| 0 <= i < j < after.len() implies (
    #[trigger] after[i].destination matches Some(d1) ==> (
    #[trigger] after[j].destination matches Some(d2) ==> d1 < d2)) by {
        assert(after[i] == block[i]);
        if j < block.len() {
            assert(after[j] == block[j]);
        }
    }
    assert forall|i: int| 0 <= i < after.len() implies operands_issued(
        #[trigger] after[i].args,
        issued,
    ) by {
        if i < block.len() {
            assert(after[i] == block[i]);
        }
    }
    assert forall|i: int| 0 <= i < after.len() implies (
    #[trigger] after[i].destination matches Some(d) ==> d < issued) by {
        if i < block.len() {
            assert(after[i] == block[i]);
        }
    }
}

/// In a block in issue order no instruction uses what it defines itself or
/// what a later instruction defines: each operand is an identifier that was
/// issued strictly before the result of that instruction.
pub proof fn lemma_no_use_before_definition(
    block: Seq<InstructionView>,
    issued: nat,
    user: int,
    operand: int,
    definer: int,
)
    requires
        in_issue_order(block, issued),
        0 <= user <= definer < block.len(),
        0 <= operand < block[user].args.len(),
        block[definer].destination is Some,
    ensures
        block[user].args[operand] < block[definer].destination->0,
        block[user].args[operand] < issued,
{
    assert(operands_issued(block[user].args, block[definer].destination->0 as nat));
    assert(operands_issued(block[user].args, issued));
}

/// In a block in issue order no identifier is defined twice.
pub proof fn lemma_definitions_are_unique(
    block: Seq<InstructionView>,
    issued: nat,
    i: int,
    j: int,
)
    requires
        in_issue_order(block, issued),
        0 <= i < block.len(),
        0 <= j < block.len(),
        block[i].destination is Some,
        block[i].destination == block[j].destination,
    ensures
        i == j,
{
    if i < j {
        assert(block[i].destination->0 < block[j].destination->0);
    } else if j < i {
        assert(block[j].destination->0 < block[i].destination->0);
    }
}

/// Two blocks that draw on one context never define the same identifier:
/// where they share none so far, and one of them appends an instruction
/// whose result is the identifier issued next, they still share none, and
/// both are in issue order for what has then been issued.
pub proof fn lemma_shared_context_keeps_definitions_apart(
    block: Seq<InstructionView>,
    other: Seq<InstructionView>,
    issued: nat,
    opcode: Opcode,
    args: Seq<VarId>,
)
    requires
        in_issue_order(block, issued),
        in_issue_order(other, issued),
        definitions(block).disjoint(definitions(other)),
        operands_issued(args, issued),
        issued <= u64::MAX,
    ensures
        definitions(block.push(defining(opcode, issued as VarId, args))).disjoint(
            definitions(other),
        ),
        in_issue_order(block.push(defining(opcode, issued as VarId, args)), issued + 1),
        in_issue_order(other, issued + 1),
{
    let after = block.push(defining(opcode, issued as VarId, args));
    lemma_defining_keeps_order(block, issued, opcode, args);
    assert forall|id: VarId|
        !(definitions(after).contains(id) && definitions(other).contains(id)) by {
        if definitions(after).contains(id) && definitions(other).contains(id) {
            let i = choose|i: int|
                0 <= i < after.len() && #[trigger] after[i].destination == Some(id);
            let j = choose|j: int|
                0 <= j < other.len() && #[trigger] other[j].destination == Some(id);
            if i < block.len() {
                assert(after[i] == block[i]);
                assert(definitions(block).contains(id));
            } else {
                assert(id == issued);
                assert(other[j].destination matches Some(d) ==> d < issued);
            }
        }
    }
}

/// Appending an instruction without a result changes no block's
/// definitions.
pub proof fn lemma_effect_defines_nothing(
    block: Seq<InstructionView>,
    opcode: Opcode,
    args: Seq<VarId>,
)
    ensures
        definitions(block.push(effect_only(opcode, args))) == definitions(block),
{
    let after = block.push(effect_only(opcode, args));
    assert forall|id: VarId| definitions(after).contains(id) == definitions(block).contains(id) by {
        if definitions(after).contains(id) {
            let i = choose|i: int|
                0 <= i < after.len() && #[trigger] after[i].destination == Some(id);
            assert(i < block.len());
            assert(after[i] == block[i]);
        }
        if definitions(block).contains(id) {
            let i = choose|i: int|
                0 <= i < block.len() && #[trigger] block[i].destination == Some(id);
            assert(after[i] == block[i]);
        }
    }
    assert(definitions(after) =~= definitions(block));
}

/// One call that changes what is being constructed.
pub enum Call {
    /// A function is given one more block, which is empty.
    AddBlock,
    /// A builder bound to the block at position `block` appends the
    /// instruction of `opcode` with the operands `args`.
    Build { block: int, opcode: Opcode, args: Seq<VarId> },
}

/// What has been constructed against one context: the number of identifiers
/// the context has issued, and the blocks that draw on it.
pub struct Construction {
    pub issued: nat,
    pub blocks: Seq<Seq<InstructionView>>,
}

/// The instruction that a builder appends for `opcode` when the context has
/// issued `issued` identifiers: its result, where it has one, is the
/// identifier issued next.
pub open spec fn built(opcode: Opcode, args: Seq<VarId>, issued: nat) -> InstructionView {
    if opcode.has_result() {
        defining(opcode, issued as VarId, args)
    } else {
        effect_only(opcode, args)
    }
}

impl Construction {
    /// Nothing constructed yet: no block, and a context that has issued
    /// nothing.
    pub open spec fn fresh() -> Construction {
        Construction { issued: 0, blocks: Seq::empty() }
    }

    /// `call` may be made: it builds in a block that exists, from operands
    /// that have been issued, and the context has an identifier left where
    /// one is needed.
    pub open spec fn admits(self, call: Call) -> bool {
        match call {
            Call::AddBlock => true,
            Call::Build { block, opcode, args } => {
                &&& 0 <= block < self.blocks.len()
                &&& operands_issued(args, self.issued)
                &&& opcode.has_result() ==> self.issued < u64::MAX
            },
        }
    }

    /// The construction after `call`.
    pub open spec fn after(self, call: Call) -> Construction {
        match call {
            Call::AddBlock => Construction {
                issued: self.issued,
                blocks: self.blocks.push(Seq::empty()),
            },
            Call::Build { block, opcode, args } => Construction {
                issued: if opcode.has_result() {
                    self.issued + 1
                } else {
                    self.issued
                },
                blocks: self.blocks.update(
                    block,
                    self.blocks[block].push(built(opcode, args, self.issued)),
                ),
            },
        }
    }

    /// Every call of `calls` may be made in its turn.
    pub open spec fn admits_all(self, calls: Seq<Call>) -> bool
        decreases calls.len(),
    {
        calls.len() == 0 || (self.admits_all(calls.drop_last()) && self.after_all(
            calls.drop_last(),
        ).admits(calls.last()))
    }

    /// The construction after all of `calls`, made in their order.
    pub open spec fn after_all(self, calls: Seq<Call>) -> Construction
        decreases calls.len(),
    {
        if calls.len() == 0 {
            self
        } else {
            self.after_all(calls.drop_last()).after(calls.last())
        }
    }

    /// Every block is in issue order, and no two blocks define the same
    /// identifier.
    pub open spec fn sound(self) -> bool {
        &&& forall|b: int|
            0 <= b < self.blocks.len() ==> in_issue_order(#[trigger] self.blocks[b], self.issued)
        &&& forall|b1: int, b2: int|
            0 <= b1 < self.blocks.len() && 0 <= b2 < self.blocks.len() && b1 != b2 ==> definitions(
                #[trigger] self.blocks[b1],
            ).disjoint(definitions(#[trigger] self.blocks[b2]))
    }
}

/// One admissible call keeps a construction sound.
pub proof fn lemma_call_keeps_sound(state: Construction, call: Call)
    requires
        state.sound(),
        state.admits(call),
    ensures
        state.after(call).sound(),
{
    let next = state.after(call);
    match call {
        Call::AddBlock => {
            lemma_empty_block_defines_nothing();
            assert forall|b: int| 0 <= b < next.blocks.len() implies in_issue_order(
                #[trigger] next.blocks[b],
                next.issued,
            ) by {
                if b < state.blocks.len() {
                    assert(next.blocks[b] == state.blocks[b]);
                }
            }
            assert forall|b1: int, b2: int|
                0 <= b1 < next.blocks.len() && 0 <= b2 < next.blocks.len() && b1 != b2 implies {
                definitions(#[trigger] next.blocks[b1]).disjoint(
                    definitions(#[trigger] next.blocks[b2]),
                )
            } by {
                if b1 < state.blocks.len() && b2 < state.blocks.len() {
                    assert(next.blocks[b1] == state.blocks[b1]);
                    assert(next.blocks[b2] == state.blocks[b2]);
                }
            }
        },
        Call::Build { block, opcode, args } => {
            let grown = state.blocks[block];
            if opcode.has_result() {
                lemma_defining_keeps_order(grown, state.issued, opcode, args);
            } else {
                lemma_effect_keeps_order(grown, state.issued, opcode, args);
                lemma_effect_defines_nothing(grown, opcode, args);
            }
            assert forall|b: int| 0 <= b < next.blocks.len() implies in_issue_order(
                #[trigger] next.blocks[b],
                next.issued,
            ) by {
                if b != block {
                    assert(next.blocks[b] == state.blocks[b]);
                    lemma_order_outlasts_issuing(state.blocks[b], state.issued, next.issued);
                }
            }
            assert forall|b1: int, b2: int|
                0 <= b1 < next.blocks.len() && 0 <= b2 < next.blocks.len() && b1 != b2 implies {
                definitions(#[trigger] next.blocks[b1]).disjoint(
                    definitions(#[trigger] next.blocks[b2]),
                )
            } by {
                let other = if b1 == block {
                    b2
                } else {
                    b1
                };
                if b1 != block && b2 != block {
                    assert(next.blocks[b1] == state.blocks[b1]);
                    assert(next.blocks[b2] == state.blocks[b2]);
                } else {
                    assert(next.blocks[other] == state.blocks[other]);
                    assert(definitions(state.blocks[block]).disjoint(
                        definitions(state.blocks[other]),
                    ));
                    if opcode.has_result() {
                        lemma_shared_context_keeps_definitions_apart(
                            grown,
                            state.blocks[other],
                            state.issued,
                            opcode,
                            args,
                        );
                    }
                }
            }
        },
    }
}

/// Whatever calls are made on one context, in whatever order and on
/// whichever blocks: as long as each takes its operands from what the
/// context has issued before, every block stays in issue order, so that no
/// instruction uses an identifier that was not issued by an earlier call,
/// and no two blocks ever define the same identifier.
pub proof fn lemma_constructions_are_sound(calls: Seq<Call>)
    requires
        Construction::fresh().admits_all(calls),
    ensures
        Construction::fresh().after_all(calls).sound(),
    decreases calls.len(),
{
    if calls.len() > 0 {
        lemma_constructions_are_sound(calls.drop_last());
        lemma_call_keeps_sound(Construction::fresh().after_all(calls.drop_last()), calls.last());
    }
}

} // verus!
