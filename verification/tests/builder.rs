use evm_ir::ir::basic_block::BasicBlock;
use evm_ir::ir::builder::context::Context;
use evm_ir::ir::function::Function;
use evm_ir::ir::instruction::{Instruction, Opcode};
use evm_ir::ir::variable::{AnyVar, BoolVar, IntVar, PointerVar, Type, TypedVar, UIntVar, Var};

#[test]
fn new_block_is_empty() {
    assert_eq!(BasicBlock::new().len(), 0);
    assert_eq!(BasicBlock::default().len(), 0);
    assert_eq!(BasicBlock::new().into_instructions(), Vec::<Instruction>::new());
}

#[test]
fn finish_on_empty_block() {
    let mut context = Context::new();
    let offset: PointerVar = TypedVar::new(context.next_id());
    let length: UIntVar<32> = TypedVar::new(context.next_id());
    let mut block = BasicBlock::new();
    {
        let mut builder = context.get_builder(&mut block);
        builder.build_finish(offset, length);
    }
    assert_eq!(block.len(), 1);
    let instructions = block.into_instructions();
    assert_eq!(instructions.len(), 1);
    assert_eq!(instructions[0].opcode, Opcode::Finish);
    assert_eq!(instructions[0].destination, None);
    assert_eq!(instructions[0].args, vec![offset.id(), length.id()]);
    assert_eq!(instructions[0].args, vec![0, 1]);
    assert_eq!(context.count(), 2);
}

#[test]
fn call_value_add_finish() {
    let mut context = Context::new();
    let mut function = Function::new(true);
    let block = function.add_basic_block();
    let (v1, v2, pointer) = {
        let mut builder = context.get_builder(block);
        let v1 = builder.build_call_value();
        let v2 = builder.build_add(v1, v1);
        let pointer = v1.into_pointer();
        builder.build_finish(pointer, v2);
        (v1, v2, pointer)
    };
    assert_eq!(v1.into_unknown(), Var { id: 0, ty: Type::UInt(32) });
    assert_eq!(v2.into_unknown(), Var { id: 1, ty: Type::UInt(32) });
    assert!(v2.id() > v1.id());

    let mut blocks = function.into_basic_blocks();
    assert_eq!(blocks.len(), 1);
    let instructions = blocks.remove(0).into_instructions();
    assert_eq!(instructions.len(), 3);
    assert_eq!(instructions[0], Instruction::call_value(v1.id()));
    assert_eq!(instructions[1].opcode, Opcode::Add);
    assert_eq!(instructions[1].destination, Some(v2.id()));
    assert_eq!(instructions[1].args, vec![v1.id(), v1.id()]);
    assert_eq!(instructions[2].opcode, Opcode::Finish);
    assert_eq!(instructions[2].destination, None);
    assert_eq!(instructions[2].args, vec![pointer.id(), v2.id()]);
}

#[test]
fn arithmetic_keeps_the_operand_type() {
    let mut context = Context::new();
    let mut block = BasicBlock::new();
    let a: IntVar<4> = TypedVar::new(context.next_id());
    let b: IntVar<4> = TypedVar::new(context.next_id());
    let mut builder = context.get_builder(&mut block);
    let sum = builder.build_add(a, b);
    let product = builder.build_mul(sum, a);
    let difference = builder.build_sub(product, b);
    let quotient = builder.build_div(difference, sum);
    assert_eq!(sum.into_unknown(), Var { id: 2, ty: Type::Int(4) });
    assert_eq!(product.into_unknown(), Var { id: 3, ty: Type::Int(4) });
    assert_eq!(difference.into_unknown(), Var { id: 4, ty: Type::Int(4) });
    assert_eq!(quotient.into_unknown(), Var { id: 5, ty: Type::Int(4) });
    let instructions = block.into_instructions();
    assert_eq!(
        instructions,
        vec![
            Instruction::add(2, 0, 1),
            Instruction::mul(3, 2, 0),
            Instruction::sub(4, 3, 1),
            Instruction::div(5, 4, 2),
        ]
    );
}

#[test]
fn comparisons_yield_booleans() {
    let mut context = Context::new();
    let mut block = BasicBlock::new();
    let mut builder = context.get_builder(&mut block);
    let a = builder.build_call_value();
    let b = builder.build_gas_left();
    let less: BoolVar = builder.build_lt(a, b);
    let greater: BoolVar = builder.build_gt(a, b);
    let equal: BoolVar = builder.build_eq(a, b);
    let zero: BoolVar = builder.build_is_zero(a);
    assert_eq!(less.into_unknown(), Var { id: 2, ty: Type::Bool });
    assert_eq!(greater.into_unknown(), Var { id: 3, ty: Type::Bool });
    assert_eq!(equal.into_unknown(), Var { id: 4, ty: Type::Bool });
    assert_eq!(zero.into_unknown(), Var { id: 5, ty: Type::Bool });
    let instructions = block.into_instructions();
    assert_eq!(instructions[2], Instruction::lt(2, 0, 1));
    assert_eq!(instructions[3], Instruction::gt(3, 0, 1));
    assert_eq!(instructions[4], Instruction::eq(4, 0, 1));
    assert_eq!(instructions[5], Instruction::is_zero(5, 0));
}

#[test]
fn effects_issue_no_identifier() {
    let mut context = Context::new();
    let mut block = BasicBlock::new();
    {
        let mut builder = context.get_builder(&mut block);
        let word = builder.build_call_data_size();
        let pointer = word.into_pointer();
        let who = builder.build_caller();
        builder.build_copy_call_data(pointer, pointer, word);
        builder.build_copy_code(pointer, pointer, word);
        builder.build_copy_external_code(who, pointer, pointer, word);
        builder.build_copy_return_data(pointer, pointer, word);
        builder.build_store();
        builder.build_store8();
        builder.build_store_storage();
        builder.build_jump(word);
        builder.build_revert(pointer, word);
        builder.build_self_destruct(who);
        builder.build_finish(pointer, word);
    }
    assert_eq!(context.count(), 2);
    let instructions = block.into_instructions();
    assert_eq!(instructions.len(), 13);
    for instruction in &instructions[2..] {
        assert_eq!(instruction.destination, None);
    }
    assert_eq!(instructions[2], Instruction::copy_call_data(0, 0, 0));
    assert_eq!(instructions[4], Instruction::copy_external_code(1, 0, 0, 0));
    assert_eq!(instructions[9], Instruction::jump(0));
    assert_eq!(instructions[11], Instruction::self_destruct(1));
}

#[test]
fn calls_take_their_roles_in_order() {
    let mut context = Context::new();
    let mut block = BasicBlock::new();
    let mut builder = context.get_builder(&mut block);
    let gas = builder.build_gas_left();
    let address = builder.build_address();
    let value = builder.build_call_value();
    let args_size = builder.build_call_data_size();
    let return_size = builder.build_return_data_size();
    let args_pointer = builder.build_memory_size().into_pointer();
    let return_pointer = builder.build_code_size().into_pointer();
    let called = builder.build_call(
        gas,
        address,
        value,
        args_pointer,
        args_size,
        return_pointer,
        return_size,
    );
    let delegated = builder.build_call_delegate(
        gas,
        address,
        args_pointer,
        args_size,
        return_pointer,
        return_size,
    );
    let created = builder.build_create(value, args_pointer, args_size);
    assert_eq!(called.into_unknown(), Var { id: 7, ty: Type::Bool });
    assert_eq!(delegated.into_unknown(), Var { id: 8, ty: Type::Bool });
    assert_eq!(created.into_unknown(), Var { id: 9, ty: Type::UInt(20) });
    let instructions = block.into_instructions();
    assert_eq!(instructions[7], Instruction::call(7, 0, 1, 2, 5, 3, 6, 4));
    assert_eq!(instructions[8], Instruction::call_delegate(8, 0, 1, 5, 3, 6, 4));
    assert_eq!(instructions[9], Instruction::create(9, 2, 5, 3));
}

#[test]
fn operands_are_defined_before_they_are_used() {
    let mut context = Context::new();
    let mut block = BasicBlock::new();
    {
        let mut builder = context.get_builder(&mut block);
        let a = builder.build_call_value();
        let b = builder.build_call_data(a);
        let c = builder.build_add(a, b);
        let d = builder.build_add_mod(a, b, c);
        let e = builder.build_shl(a, d);
        let hash = builder.build_sha3(e.into_pointer(), c);
        builder.build_revert(hash.into_pointer(), a);
    }
    let instructions = block.into_instructions();
    let mut defined: Vec<u64> = Vec::new();
    for instruction in &instructions {
        for operand in &instruction.args {
            assert!(defined.contains(operand));
        }
        if let Some(destination) = instruction.destination {
            for operand in &instruction.args {
                assert!(*operand < destination);
            }
            assert!(!defined.contains(&destination));
            defined.push(destination);
        }
    }
    assert_eq!(defined, vec![0, 1, 2, 3, 4, 5]);
}

#[test]
fn blocks_of_one_function_never_share_identifiers() {
    let mut context = Context::new();
    let mut function = Function::new(false);
    function.add_basic_block();
    function.add_basic_block();
    for round in 0..10 {
        let index = round % 2;
        let block = function.basic_block_mut(index).unwrap();
        let mut builder = context.get_builder(block);
        let a = builder.build_block_number();
        let b = builder.build_block_timestamp();
        let sum = builder.build_add(a, b);
        builder.build_jump(sum);
    }
    let mut blocks = function.into_basic_blocks();
    assert_eq!(blocks.len(), 2);
    let second = blocks.pop().unwrap().into_instructions();
    let first = blocks.pop().unwrap().into_instructions();
    assert_eq!(first.len(), 20);
    assert_eq!(second.len(), 20);
    let first_ids: Vec<u64> = first.iter().filter_map(|i| i.destination).collect();
    let second_ids: Vec<u64> = second.iter().filter_map(|i| i.destination).collect();
    assert_eq!(first_ids.len(), 15);
    assert_eq!(second_ids.len(), 15);
    for id in &first_ids {
        assert!(!second_ids.contains(id));
    }
    assert_eq!(first_ids[0..3], [0, 1, 2]);
    assert_eq!(second_ids[0..3], [3, 4, 5]);
    assert_eq!(first_ids[3..6], [6, 7, 8]);
    assert_eq!(context.count(), 30);
}

#[test]
fn a_later_builder_continues_the_block() {
    let mut context = Context::new();
    let mut block = BasicBlock::new();
    let first = {
        let mut builder = context.get_builder(&mut block);
        builder.build_caller()
    };
    {
        let mut builder = context.get_builder(&mut block);
        let balance = builder.build_external_balance(first);
        assert_eq!(balance.into_unknown(), Var { id: 1, ty: Type::UInt(32) });
    }
    assert_eq!(
        block.into_instructions(),
        vec![Instruction::caller(0), Instruction::external_balance(1, 0)]
    );
}

#[test]
fn reading_a_block_leaves_it_as_it_is() {
    let mut context = Context::new();
    let mut block = BasicBlock::new();
    assert_eq!(block.instructions(), Vec::<Instruction>::new());
    {
        let mut builder = context.get_builder(&mut block);
        let a = builder.build_load();
        let b = builder.build_load_storage();
        let both = builder.build_and(a, b);
        builder.build_not(both);
    }
    let expected = vec![
        Instruction::load(0),
        Instruction::load_storage(1),
        Instruction::and(2, 0, 1),
        Instruction::not(3, 2),
    ];
    assert_eq!(block.instructions(), expected);
    assert_eq!(block.instructions(), expected);
    assert_eq!(block.len(), 4);
    {
        let mut builder = context.get_builder(&mut block);
        builder.build_store();
    }
    assert_eq!(block.instructions().len(), 5);
    assert_eq!(block.into_instructions()[4], Instruction::store());
}
