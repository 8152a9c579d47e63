use evm_ir::ir::builder::context::Context;
use evm_ir::ir::function::Function;
use evm_ir::ir::instruction::Instruction;

#[test]
fn new_function_has_no_blocks() {
    let function = Function::new(true);
    assert!(function.is_entry());
    assert_eq!(function.len(), 0);
    assert!(function.into_basic_blocks().is_empty());
    assert!(!Function::new(false).is_entry());
}

#[test]
fn added_blocks_are_empty_and_counted() {
    let mut function = Function::new(false);
    assert_eq!(function.add_basic_block().len(), 0);
    assert_eq!(function.len(), 1);
    assert_eq!(function.add_basic_block().len(), 0);
    assert_eq!(function.add_basic_block().len(), 0);
    assert_eq!(function.len(), 3);
    assert!(!function.is_entry());
}

#[test]
fn blocks_are_found_by_position() {
    let mut context = Context::new();
    let mut function = Function::new(true);
    for _ in 0..3 {
        function.add_basic_block();
    }
    {
        let block = function.basic_block_mut(1).unwrap();
        let mut builder = context.get_builder(block);
        builder.build_chain_id();
    }
    {
        let block = function.basic_block_mut(2).unwrap();
        let mut builder = context.get_builder(block);
        builder.build_base_fee();
        builder.build_balance();
    }
    assert_eq!(function.basic_block_mut(0).unwrap().len(), 0);
    assert_eq!(function.basic_block_mut(1).unwrap().len(), 1);
    assert_eq!(function.basic_block_mut(2).unwrap().len(), 2);
    assert!(function.basic_block_mut(3).is_none());
    assert!(function.basic_block_mut(usize::MAX).is_none());
    assert_eq!(function.len(), 3);
}

#[test]
fn blocks_come_out_in_the_order_they_were_added() {
    let mut context = Context::new();
    let mut function = Function::new(true);
    {
        let block = function.add_basic_block();
        let mut builder = context.get_builder(block);
        builder.build_tx_origin();
    }
    {
        let block = function.add_basic_block();
        let mut builder = context.get_builder(block);
        builder.build_tx_gas_price();
        builder.build_block_coinbase();
    }
    function.add_basic_block();
    let blocks = function.into_basic_blocks();
    assert_eq!(blocks.len(), 3);
    let contents: Vec<Vec<Instruction>> =
        blocks.into_iter().map(|block| block.into_instructions()).collect();
    assert_eq!(contents[0], vec![Instruction::tx_origin(0)]);
    assert_eq!(contents[1], vec![Instruction::tx_gas_price(1), Instruction::block_coinbase(2)]);
    assert_eq!(contents[2], Vec::<Instruction>::new());
}

#[test]
fn a_block_is_built_in_place() {
    let mut context = Context::new();
    let mut function = Function::new(false);
    let block = function.add_basic_block();
    let mut builder = context.get_builder(block);
    let number = builder.build_block_number();
    let hash = builder.build_block_hash(number);
    let difficulty = builder.build_block_difficulty();
    let limit = builder.build_block_gas_limit();
    let same = builder.build_eq(difficulty, limit);
    let any = builder.build_or(hash, same.into_uint());
    builder.build_jump(any);
    assert_eq!(function.len(), 1);
    assert_eq!(function.basic_block_mut(0).unwrap().len(), 7);
}
