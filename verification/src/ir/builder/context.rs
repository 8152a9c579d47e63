//! The authority that issues identifiers.

use vstd::prelude::*;

use crate::ir::basic_block::{BasicBlock, BasicBlockBuilder};
use crate::ir::variable::VarId;

verus! {

/// Issues the identifiers of one compilation unit: 0 first, then 1, and so
/// on, none of them twice.
#[non_exhaustive]
pub struct Context {
    next: VarId,
}

impl Context {
    /// The number of identifiers issued so far. They are the identifiers
    /// below this number.
    pub closed spec fn issued(&self) -> nat {
        self.next as nat
    }

    pub fn new() -> (context: Self)
        ensures
            context.issued() == 0,
    {
        Self { next: 0 }
    }

    /// The number of identifiers issued so far.
    pub fn count(&self) -> (count: u64)
        ensures
            count == self.issued(),
    {
        self.next
    }

    /// Issues the next identifier: the number of identifiers issued so far.
    /// A context cannot issue more identifiers than `u64` has values.
    pub fn next_id(&mut self) -> (id: VarId)
        requires
            old(self).issued() < u64::MAX,
        ensures
            (id as nat, final(self).issued()) == issue(old(self).issued()),
    {
        let id: VarId = self.next;
        self.next = id + 1;
        id
    }

    /// Binds a builder to `basic_block` that draws its identifiers from this
    /// context.
    pub fn get_builder<'ctx>(&'ctx mut self, basic_block: &'ctx mut BasicBlock) -> (builder:
        BasicBlockBuilder<'ctx>)
        ensures
            *builder.context == *old(self),
            *builder.basic_block == *old(basic_block),
            *final(builder.context) == *final(self),
            *final(builder.basic_block) == *final(basic_block),
    {
        BasicBlockBuilder::new(self, basic_block)
    }
}

/// One call of [`Context::next_id`] on a context that has issued `issued`
/// identifiers: the identifier that the call returns, and the number of
/// identifiers issued after it.
pub open spec fn issue(issued: nat) -> (nat, nat) {
    (issued, issued + 1)
}

/// The identifiers that `n` successive calls of [`Context::next_id`] return
/// on a context that has issued `start` identifiers before.
pub open spec fn successive_ids(start: nat, n: nat) -> Seq<nat>
    decreases n,
{
    if n == 0 {
        Seq::empty()
    } else {
        seq![issue(start).0] + successive_ids(issue(start).1, (n - 1) as nat)
    }
}

/// Successive calls return successive numbers.
pub proof fn lemma_successive_ids(start: nat, n: nat)
    ensures
        successive_ids(start, n).len() == n,
        forall|i: int| 0 <= i < n ==> #[trigger] successive_ids(start, n)[i] == start + i,
    decreases n,
{
    if n > 0 {
        lemma_successive_ids(start + 1, (n - 1) as nat);
    }
}

/// `n` calls on a fresh context return `n` distinct identifiers, strictly
/// increasing, the first of them 0.
pub proof fn lemma_fresh_ids_increase(n: nat)
    ensures
        successive_ids(0, n).len() == n,
        n > 0 ==> successive_ids(0, n)[0] == 0,
        forall|i: int, j: int|
            0 <= i < j < n ==> #[trigger] successive_ids(0, n)[i] < #[trigger] successive_ids(
                0,
                n,
            )[j],
{
    lemma_successive_ids(0, n);
}

impl Default for Context {
    fn default() -> (context: Self)
        ensures
            context.issued() == 0,
    {
        Self::new()
    }
}

} // verus!
