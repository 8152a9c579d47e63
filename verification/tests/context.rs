use evm_ir::ir::basic_block::BasicBlock;
use evm_ir::ir::builder::context::Context;

#[test]
fn fresh_context_has_issued_nothing() {
    let context = Context::new();
    assert_eq!(context.count(), 0);
}

#[test]
fn default_context_is_fresh() {
    let context = Context::default();
    assert_eq!(context.count(), 0);
}

#[test]
fn first_identifier_is_zero() {
    let mut context = Context::new();
    assert_eq!(context.next_id(), 0);
}

#[test]
fn identifiers_are_distinct_and_strictly_increasing() {
    let mut context = Context::new();
    let mut issued: Vec<u64> = Vec::new();
    for _ in 0..100 {
        issued.push(context.next_id());
    }
    assert_eq!(issued.len(), 100);
    assert_eq!(issued[0], 0);
    for i in 1..issued.len() {
        assert!(issued[i - 1] < issued[i]);
    }
    for (i, id) in issued.iter().enumerate() {
        assert_eq!(*id, i as u64);
    }
    assert_eq!(context.count(), 100);
}

#[test]
fn count_follows_next_id() {
    let mut context = Context::new();
    let a = context.next_id();
    assert_eq!(context.count(), a + 1);
    let b = context.next_id();
    assert_eq!(context.count(), b + 1);
    assert_eq!(b, a + 1);
}

#[test]
fn two_contexts_count_independently() {
    let mut first = Context::new();
    let mut second = Context::new();
    assert_eq!(first.next_id(), 0);
    assert_eq!(first.next_id(), 1);
    assert_eq!(second.next_id(), 0);
    assert_eq!(first.next_id(), 2);
    assert_eq!(second.next_id(), 1);
}

#[test]
fn get_builder_binds_without_issuing() {
    let mut context = Context::new();
    let mut block = BasicBlock::new();
    {
        let _builder = context.get_builder(&mut block);
    }
    assert_eq!(context.count(), 0);
    assert_eq!(block.len(), 0);
}

#[test]
fn builder_draws_identifiers_from_its_context() {
    let mut context = Context::new();
    let stray = context.next_id();
    assert_eq!(stray, 0);
    let mut block = BasicBlock::new();
    {
        let mut builder = context.get_builder(&mut block);
        let value = builder.build_call_value();
        assert_eq!(value.into_unknown().id, 1);
    }
    assert_eq!(context.count(), 2);
    assert_eq!(context.next_id(), 2);
}
