use evm_ir::ir::instruction::{Instruction, Opcode};

fn expect_shape(inst: Instruction, opcode: Opcode, destination: Option<u64>, args: &[u64]) {
    assert_eq!(inst.opcode, opcode);
    assert_eq!(inst.destination, destination);
    assert_eq!(inst.args, args);
    assert_eq!(inst.args.len(), opcode.operand_count());
    assert_eq!(inst.destination.is_some(), opcode.produces_result());
}

#[test]
fn arithmetic_instructions() {
    expect_shape(Instruction::add(99, 10, 11), Opcode::Add, Some(99), &[10, 11]);
    expect_shape(Instruction::mul(99, 10, 11), Opcode::Mul, Some(99), &[10, 11]);
    expect_shape(Instruction::sub(99, 10, 11), Opcode::Sub, Some(99), &[10, 11]);
    expect_shape(Instruction::div(99, 10, 11), Opcode::Div, Some(99), &[10, 11]);
    expect_shape(Instruction::modulo(99, 10, 11), Opcode::Modulo, Some(99), &[10, 11]);
    expect_shape(Instruction::add_mod(99, 10, 11, 12), Opcode::AddMod, Some(99), &[10, 11, 12]);
    expect_shape(Instruction::mul_mod(99, 10, 11, 12), Opcode::MulMod, Some(99), &[10, 11, 12]);
    expect_shape(Instruction::exp(99, 10, 11), Opcode::Exp, Some(99), &[10, 11]);
    expect_shape(Instruction::sext(99, 10, 11), Opcode::Sext, Some(99), &[10, 11]);
}

#[test]
fn comparison_instructions() {
    expect_shape(Instruction::lt(99, 10, 11), Opcode::Lt, Some(99), &[10, 11]);
    expect_shape(Instruction::gt(99, 10, 11), Opcode::Gt, Some(99), &[10, 11]);
    expect_shape(Instruction::eq(99, 10, 11), Opcode::Eq, Some(99), &[10, 11]);
    expect_shape(Instruction::is_zero(99, 10), Opcode::IsZero, Some(99), &[10]);
}

#[test]
fn bitwise_instructions() {
    expect_shape(Instruction::and(99, 10, 11), Opcode::And, Some(99), &[10, 11]);
    expect_shape(Instruction::or(99, 10, 11), Opcode::Or, Some(99), &[10, 11]);
    expect_shape(Instruction::xor(99, 10, 11), Opcode::Xor, Some(99), &[10, 11]);
    expect_shape(Instruction::not(99, 10), Opcode::Not, Some(99), &[10]);
    expect_shape(Instruction::byte(99, 10, 11), Opcode::Byte, Some(99), &[10, 11]);
    expect_shape(Instruction::shl(99, 10, 11), Opcode::Shl, Some(99), &[10, 11]);
    expect_shape(Instruction::shr(99, 10, 11), Opcode::Shr, Some(99), &[10, 11]);
    expect_shape(Instruction::sar(99, 10, 11), Opcode::Sar, Some(99), &[10, 11]);
}

#[test]
fn hashing_instructions() {
    expect_shape(Instruction::sha3(99, 10, 11), Opcode::Sha3, Some(99), &[10, 11]);
}

#[test]
fn account_instructions() {
    expect_shape(Instruction::address(99), Opcode::Address, Some(99), &[]);
    expect_shape(Instruction::external_balance(99, 10), Opcode::ExternalBalance, Some(99), &[10]);
    expect_shape(Instruction::tx_origin(99), Opcode::TxOrigin, Some(99), &[]);
    expect_shape(Instruction::caller(99), Opcode::Caller, Some(99), &[]);
}

#[test]
fn call_data_instructions() {
    expect_shape(Instruction::call_value(99), Opcode::CallValue, Some(99), &[]);
    expect_shape(Instruction::call_data(99, 10), Opcode::CallData, Some(99), &[10]);
    expect_shape(Instruction::call_data_size(99), Opcode::CallDataSize, Some(99), &[]);
    expect_shape(
        Instruction::copy_call_data(10, 11, 12),
        Opcode::CopyCallData,
        None,
        &[10, 11, 12],
    );
}

#[test]
fn code_instructions() {
    expect_shape(Instruction::code_size(99), Opcode::CodeSize, Some(99), &[]);
    expect_shape(Instruction::copy_code(10, 11, 12), Opcode::CopyCode, None, &[10, 11, 12]);
    expect_shape(Instruction::tx_gas_price(99), Opcode::TxGasPrice, Some(99), &[]);
    expect_shape(
        Instruction::external_code_size(99, 10),
        Opcode::ExternalCodeSize,
        Some(99),
        &[10],
    );
    expect_shape(
        Instruction::copy_external_code(10, 11, 12, 13),
        Opcode::CopyExternalCode,
        None,
        &[10, 11, 12, 13],
    );
    expect_shape(Instruction::return_data_size(99), Opcode::ReturnDataSize, Some(99), &[]);
    expect_shape(
        Instruction::copy_return_data(10, 11, 12),
        Opcode::CopyReturnData,
        None,
        &[10, 11, 12],
    );
    expect_shape(
        Instruction::external_code_hash(99, 10),
        Opcode::ExternalCodeHash,
        Some(99),
        &[10],
    );
}

#[test]
fn block_instructions() {
    expect_shape(Instruction::block_hash(99, 10), Opcode::BlockHash, Some(99), &[10]);
    expect_shape(Instruction::block_coinbase(99), Opcode::BlockCoinbase, Some(99), &[]);
    expect_shape(Instruction::block_timestamp(99), Opcode::BlockTimestamp, Some(99), &[]);
    expect_shape(Instruction::block_number(99), Opcode::BlockNumber, Some(99), &[]);
    expect_shape(Instruction::block_difficulty(99), Opcode::BlockDifficulty, Some(99), &[]);
    expect_shape(Instruction::block_gas_limit(99), Opcode::BlockGasLimit, Some(99), &[]);
    expect_shape(Instruction::chain_id(99), Opcode::ChainId, Some(99), &[]);
    expect_shape(Instruction::balance(99), Opcode::Balance, Some(99), &[]);
    expect_shape(Instruction::base_fee(99), Opcode::BaseFee, Some(99), &[]);
}

#[test]
fn memory_and_storage_instructions() {
    expect_shape(Instruction::load(99), Opcode::Load, Some(99), &[]);
    expect_shape(Instruction::store(), Opcode::Store, None, &[]);
    expect_shape(Instruction::store8(), Opcode::Store8, None, &[]);
    expect_shape(Instruction::load_storage(99), Opcode::LoadStorage, Some(99), &[]);
    expect_shape(Instruction::store_storage(), Opcode::StoreStorage, None, &[]);
}

#[test]
fn control_instructions() {
    expect_shape(Instruction::jump(10), Opcode::Jump, None, &[10]);
}

#[test]
fn machine_state_instructions() {
    expect_shape(Instruction::memory_size(99), Opcode::MemorySize, Some(99), &[]);
    expect_shape(Instruction::gas_left(99), Opcode::GasLeft, Some(99), &[]);
}

#[test]
fn calls_instructions() {
    expect_shape(Instruction::create(99, 10, 11, 12), Opcode::Create, Some(99), &[10, 11, 12]);
    expect_shape(
        Instruction::call(99, 10, 11, 12, 13, 14, 15, 16),
        Opcode::Call,
        Some(99),
        &[10, 11, 12, 13, 14, 15, 16],
    );
    expect_shape(
        Instruction::call_code(99, 10, 11, 12, 13, 14, 15, 16),
        Opcode::CallCode,
        Some(99),
        &[10, 11, 12, 13, 14, 15, 16],
    );
    expect_shape(Instruction::finish(10, 11), Opcode::Finish, None, &[10, 11]);
    expect_shape(
        Instruction::call_delegate(99, 10, 11, 12, 13, 14, 15),
        Opcode::CallDelegate,
        Some(99),
        &[10, 11, 12, 13, 14, 15],
    );
    expect_shape(
        Instruction::call_static(99, 10, 11, 12, 13, 14, 15),
        Opcode::CallStatic,
        Some(99),
        &[10, 11, 12, 13, 14, 15],
    );
    expect_shape(Instruction::revert(10, 11), Opcode::Revert, None, &[10, 11]);
    expect_shape(Instruction::self_destruct(10), Opcode::SelfDestruct, None, &[10]);
}

#[test]
fn operands_keep_their_order() {
    let inst = Instruction::sub(3, 2, 1);
    assert_eq!(inst.args, vec![2, 1]);
    let inst = Instruction::copy_external_code(4, 3, 2, 1);
    assert_eq!(inst.args, vec![4, 3, 2, 1]);
    assert_eq!(inst.destination, None);
    let inst = Instruction::call(0, 7, 6, 5, 4, 3, 2, 1);
    assert_eq!(inst.destination, Some(0));
    assert_eq!(inst.args, vec![7, 6, 5, 4, 3, 2, 1]);
}

#[test]
fn an_operand_may_repeat() {
    let inst = Instruction::add(1, 0, 0);
    assert_eq!(inst.opcode, Opcode::Add);
    assert_eq!(inst.destination, Some(1));
    assert_eq!(inst.args, vec![0, 0]);
}

#[test]
fn table_of_arities() {
    assert_eq!(Opcode::CallValue.operand_count(), 0);
    assert_eq!(Opcode::IsZero.operand_count(), 1);
    assert_eq!(Opcode::Add.operand_count(), 2);
    assert_eq!(Opcode::AddMod.operand_count(), 3);
    assert_eq!(Opcode::CopyExternalCode.operand_count(), 4);
    assert_eq!(Opcode::CallStatic.operand_count(), 6);
    assert_eq!(Opcode::Call.operand_count(), 7);
}

#[test]
fn table_of_results() {
    for opcode in [
        Opcode::CopyCallData,
        Opcode::CopyCode,
        Opcode::CopyExternalCode,
        Opcode::CopyReturnData,
        Opcode::Store,
        Opcode::Store8,
        Opcode::StoreStorage,
        Opcode::Jump,
        Opcode::Finish,
        Opcode::Revert,
        Opcode::SelfDestruct,
    ] {
        assert!(!opcode.produces_result());
    }
    for opcode in [Opcode::Add, Opcode::Load, Opcode::Call, Opcode::Create, Opcode::GasLeft] {
        assert!(opcode.produces_result());
    }
}

#[test]
fn instructions_compare_by_content() {
    assert_eq!(Instruction::lt(2, 0, 1), Instruction::lt(2, 0, 1));
    assert_ne!(Instruction::lt(2, 0, 1), Instruction::gt(2, 0, 1));
    assert_ne!(Instruction::lt(2, 0, 1), Instruction::lt(2, 1, 0));
    assert_ne!(Instruction::lt(2, 0, 1), Instruction::lt(3, 0, 1));
    let inst = Instruction::revert(5, 6);
    assert_eq!(inst.clone(), inst);
}
