//! Instructions and the table of opcodes they are made from.
//!
//! Every opcode has a fixed list of operand roles and either names a result
//! or does not. [`Opcode::arity`] and [`Opcode::has_result`] are that table;
//! each constructor of [`Instruction`] builds the one shape the table gives
//! its opcode.

use vstd::prelude::*;

use super::variable::VarId;

verus! {

/// One operation: what it does, which identifier names its result, and the
/// identifiers of its operands in the order of their roles.
#[non_exhaustive]
#[derive(Debug, PartialEq, Eq)]
pub struct Instruction {
    pub opcode: Opcode,
    pub destination: Option<VarId>,
    pub args: Vec<VarId>,
}

/// An [`Instruction`] as a mathematical value.
pub struct InstructionView {
    pub opcode: Opcode,
    pub destination: Option<VarId>,
    pub args: Seq<VarId>,
}

impl View for Instruction {
    type V = InstructionView;

    open spec fn view(&self) -> InstructionView {
        InstructionView { opcode: self.opcode, destination: self.destination, args: self.args@ }
    }
}

impl Clone for Instruction {
    fn clone(&self) -> (copy: Self)
        ensures
            copy@ == self@,
    {
        let args = self.args.clone();
        assert(args@ =~= self.args@);
        Self { opcode: self.opcode, destination: self.destination, args }
    }
}

impl InstructionView {
    /// The instruction has the shape that the opcode table gives its opcode:
    /// as many operands as the opcode has roles, and a destination exactly
    /// when the opcode yields a result.
    pub open spec fn well_formed(self) -> bool {
        &&& self.args.len() == self.opcode.arity()
        &&& self.destination is Some <==> self.opcode.has_result()
    }
}

/// The instruction of `opcode` that names its result `destination`.
pub open spec fn defining(opcode: Opcode, destination: VarId, args: Seq<VarId>) -> InstructionView {
    InstructionView { opcode, destination: Some(destination), args }
}

/// The instruction of `opcode` that has no result.
pub open spec fn effect_only(opcode: Opcode, args: Seq<VarId>) -> InstructionView {
    InstructionView { opcode, destination: None, args }
}

/// What an instruction does.
#[derive(Clone, Copy, Debug, PartialEq, Eq, Structural)]
pub enum Opcode {
    /// Addition.
    Add,
    /// Multiplication.
    Mul,
    /// Subtraction.
    Sub,
    /// Division.
    Div,
    /// Remainder of a division.
    Modulo,
    /// Addition modulo `n`.
    AddMod,
    /// Multiplication modulo `n`.
    MulMod,
    /// Exponentiation.
    Exp,
    /// Sign extension of `a` from a width given in bytes.
    Sext,
    /// Less-than comparison.
    Lt,
    /// Greater-than comparison.
    Gt,
    /// Equality comparison.
    Eq,
    /// Comparison with zero.
    IsZero,
    /// Bitwise and.
    And,
    /// Bitwise or.
    Or,
    /// Bitwise exclusive or.
    Xor,
    /// Bitwise negation.
    Not,
    /// One byte of a word, chosen by its index.
    Byte,
    /// Shift to the left.
    Shl,
    /// Logical shift to the right.
    Shr,
    /// Arithmetic shift to the right.
    Sar,
    /// Hash of a range of memory.
    Sha3,
    /// Address of the executing contract.
    Address,
    /// Balance of an account.
    ExternalBalance,
    /// Address that the transaction came from.
    TxOrigin,
    /// Address of the caller.
    Caller,
    /// Value that was sent with the call.
    CallValue,
    /// One word of the call data, chosen by its index.
    CallData,
    /// Size of the call data.
    CallDataSize,
    /// Copies call data to memory.
    CopyCallData,
    /// Size of the executing code.
    CodeSize,
    /// Copies executing code to memory.
    CopyCode,
    /// Gas price of the transaction.
    TxGasPrice,
    /// Size of an account's code.
    ExternalCodeSize,
    /// Copies an account's code to memory.
    CopyExternalCode,
    /// Size of the data that the last call returned.
    ReturnDataSize,
    /// Copies data that the last call returned to memory.
    CopyReturnData,
    /// Hash of an account's code.
    ExternalCodeHash,
    /// Hash of a recent block, chosen by its number.
    BlockHash,
    /// Beneficiary address of the current block.
    BlockCoinbase,
    /// Timestamp of the current block.
    BlockTimestamp,
    /// Number of the current block.
    BlockNumber,
    /// Difficulty of the current block.
    BlockDifficulty,
    /// Gas limit of the current block.
    BlockGasLimit,
    /// Identifier of the chain.
    ChainId,
    /// Balance of the executing contract.
    Balance,
    /// Base fee of the current block.
    BaseFee,
    /// Loads a word from memory.
    Load,
    /// Stores a word to memory.
    Store,
    /// Stores a byte to memory.
    Store8,
    /// Loads a word from storage.
    LoadStorage,
    /// Stores a word to storage.
    StoreStorage,
    /// Jumps to a position in the code.
    Jump,
    /// Size of the memory in use.
    MemorySize,
    /// Gas that is left.
    GasLeft,
    /// Creates a contract from code in memory.
    Create,
    /// Calls an account.
    Call,
    /// Calls an account's code on the storage of the executing contract.
    CallCode,
    /// Ends execution and returns a range of memory.
    Finish,
    /// Calls an account's code, keeping caller and value.
    CallDelegate,
    /// Calls an account without letting it change state.
    CallStatic,
    /// Ends execution, undoes its changes and returns a range of memory.
    Revert,
    /// Ends execution and gives the balance of the contract to an account.
    SelfDestruct,
}

impl Opcode {
    /// The number of operands that an instruction of this opcode takes.
    pub open spec fn arity(self) -> nat {
        match self {
            Opcode::Address
            | Opcode::TxOrigin
            | Opcode::Caller
            | Opcode::CallValue
            | Opcode::CallDataSize
            | Opcode::CodeSize
            | Opcode::TxGasPrice
            | Opcode::ReturnDataSize
            | Opcode::BlockCoinbase
            | Opcode::BlockTimestamp
            | Opcode::BlockNumber
            | Opcode::BlockDifficulty
            | Opcode::BlockGasLimit
            | Opcode::ChainId
            | Opcode::Balance
            | Opcode::BaseFee
            | Opcode::Load
            | Opcode::Store
            | Opcode::Store8
            | Opcode::LoadStorage
            | Opcode::StoreStorage
            | Opcode::MemorySize
            | Opcode::GasLeft => 0,
            Opcode::IsZero
            | Opcode::Not
            | Opcode::ExternalBalance
            | Opcode::CallData
            | Opcode::ExternalCodeSize
            | Opcode::ExternalCodeHash
            | Opcode::BlockHash
            | Opcode::Jump
            | Opcode::SelfDestruct => 1,
            Opcode::Add
            | Opcode::Mul
            | Opcode::Sub
            | Opcode::Div
            | Opcode::Modulo
            | Opcode::Exp
            | Opcode::Sext
            | Opcode::Lt
            | Opcode::Gt
            | Opcode::Eq
            | Opcode::And
            | Opcode::Or
            | Opcode::Xor
            | Opcode::Byte
            | Opcode::Shl
            | Opcode::Shr
            | Opcode::Sar
            | Opcode::Sha3
            | Opcode::Finish
            | Opcode::Revert => 2,
            Opcode::AddMod
            | Opcode::MulMod
            | Opcode::CopyCallData
            | Opcode::CopyCode
            | Opcode::CopyReturnData
            | Opcode::Create => 3,
            Opcode::CopyExternalCode => 4,
            Opcode::CallDelegate
            | Opcode::CallStatic => 6,
            Opcode::Call
            | Opcode::CallCode => 7,
        }
    }

    /// Whether an instruction of this opcode names a result.
    pub open spec fn has_result(self) -> bool {
        match self {
            Opcode::CopyCallData
            | Opcode::CopyCode
            | Opcode::CopyExternalCode
            | Opcode::CopyReturnData
            | Opcode::Store
            | Opcode::Store8
            | Opcode::StoreStorage
            | Opcode::Jump
            | Opcode::Finish
            | Opcode::Revert
            | Opcode::SelfDestruct => false,
            _ => true,
        }
    }

    /// The number of operands that an instruction of this opcode takes.
    pub fn operand_count(self) -> (count: usize)
        ensures
            count == self.arity(),
    {
        match self {
            Opcode::Address
            | Opcode::TxOrigin
            | Opcode::Caller
            | Opcode::CallValue
            | Opcode::CallDataSize
            | Opcode::CodeSize
            | Opcode::TxGasPrice
            | Opcode::ReturnDataSize
            | Opcode::BlockCoinbase
            | Opcode::BlockTimestamp
            | Opcode::BlockNumber
            | Opcode::BlockDifficulty
            | Opcode::BlockGasLimit
            | Opcode::ChainId
            | Opcode::Balance
            | Opcode::BaseFee
            | Opcode::Load
            | Opcode::Store
            | Opcode::Store8
            | Opcode::LoadStorage
            | Opcode::StoreStorage
            | Opcode::MemorySize
            | Opcode::GasLeft => 0,
            Opcode::IsZero
            | Opcode::Not
            | Opcode::ExternalBalance
            | Opcode::CallData
            | Opcode::ExternalCodeSize
            | Opcode::ExternalCodeHash
            | Opcode::BlockHash
            | Opcode::Jump
            | Opcode::SelfDestruct => 1,
            Opcode::Add
            | Opcode::Mul
            | Opcode::Sub
            | Opcode::Div
            | Opcode::Modulo
            | Opcode::Exp
            | Opcode::Sext
            | Opcode::Lt
            | Opcode::Gt
            | Opcode::Eq
            | Opcode::And
            | Opcode::Or
            | Opcode::Xor
            | Opcode::Byte
            | Opcode::Shl
            | Opcode::Shr
            | Opcode::Sar
            | Opcode::Sha3
            | Opcode::Finish
            | Opcode::Revert => 2,
            Opcode::AddMod
            | Opcode::MulMod
            | Opcode::CopyCallData
            | Opcode::CopyCode
            | Opcode::CopyReturnData
            | Opcode::Create => 3,
            Opcode::CopyExternalCode => 4,
            Opcode::CallDelegate
            | Opcode::CallStatic => 6,
            Opcode::Call
            | Opcode::CallCode => 7,
        }
    }

    /// Whether an instruction of this opcode names a result.
    pub fn produces_result(self) -> (yes: bool)
        ensures
            yes == self.has_result(),
    {
        match self {
            Opcode::CopyCallData
            | Opcode::CopyCode
            | Opcode::CopyExternalCode
            | Opcode::CopyReturnData
            | Opcode::Store
            | Opcode::Store8
            | Opcode::StoreStorage
            | Opcode::Jump
            | Opcode::Finish
            | Opcode::Revert
            | Opcode::SelfDestruct => false,
            _ => true,
        }
    }
}

/// One constructor for each opcode. It takes the destination first, where the
/// opcode has a result, and then one identifier for each operand role.
impl Instruction {
    pub fn add(destination: VarId, a: VarId, b: VarId) -> (inst: Self)
        ensures
            inst@ == defining(Opcode::Add, destination, seq![a, b]),
            inst@.well_formed(),
    {
        Self { opcode: Opcode::Add, destination: Some(destination), args: vec![a, b] }
    }

    pub fn mul(destination: VarId, a: VarId, b: VarId) -> (inst: Self)
        ensures
            inst@ == defining(Opcode::Mul, destination, seq![a, b]),
            inst@.well_formed(),
    {
        Self { opcode: Opcode::Mul, destination: Some(destination), args: vec![a, b] }
    }

    pub fn sub(destination: VarId, a: VarId, b: VarId) -> (inst: Self)
        ensures
            inst@ == defining(Opcode::Sub, destination, seq![a, b]),
            inst@.well_formed(),
    {
        Self { opcode: Opcode::Sub, destination: Some(destination), args: vec![a, b] }
    }

    pub fn div(destination: VarId, a: VarId, b: VarId) -> (inst: Self)
        ensures
            inst@ == defining(Opcode::Div, destination, seq![a, b]),
            inst@.well_formed(),
    {
        Self { opcode: Opcode::Div, destination: Some(destination), args: vec![a, b] }
    }

    pub fn modulo(destination: VarId, a: VarId, b: VarId) -> (inst: Self)
        ensures
            inst@ == defining(Opcode::Modulo, destination, seq![a, b]),
            inst@.well_formed(),
    {
        Self { opcode: Opcode::Modulo, destination: Some(destination), args: vec![a, b] }
    }

    pub fn add_mod(destination: VarId, a: VarId, b: VarId, n: VarId) -> (inst: Self)
        ensures
            inst@ == defining(Opcode::AddMod, destination, seq![a, b, n]),
            inst@.well_formed(),
    {
        Self { opcode: Opcode::AddMod, destination: Some(destination), args: vec![a, b, n] }
    }

    pub fn mul_mod(destination: VarId, a: VarId, b: VarId, n: VarId) -> (inst: Self)
        ensures
            inst@ == defining(Opcode::MulMod, destination, seq![a, b, n]),
            inst@.well_formed(),
    {
        Self { opcode: Opcode::MulMod, destination: Some(destination), args: vec![a, b, n] }
    }

    pub fn exp(destination: VarId, a: VarId, exponent: VarId) -> (inst: Self)
        ensures
            inst@ == defining(Opcode::Exp, destination, seq![a, exponent]),
            inst@.well_formed(),
    {
        Self { opcode: Opcode::Exp, destination: Some(destination), args: vec![a, exponent] }
    }

    pub fn sext(destination: VarId, size_in_bytes: VarId, a: VarId) -> (inst: Self)
        ensures
            inst@ == defining(Opcode::Sext, destination, seq![size_in_bytes, a]),
            inst@.well_formed(),
    {
        Self { opcode: Opcode::Sext, destination: Some(destination), args: vec![size_in_bytes, a] }
    }

    pub fn lt(destination: VarId, a: VarId, b: VarId) -> (inst: Self)
        ensures
            inst@ == defining(Opcode::Lt, destination, seq![a, b]),
            inst@.well_formed(),
    {
        Self { opcode: Opcode::Lt, destination: Some(destination), args: vec![a, b] }
    }

    pub fn gt(destination: VarId, a: VarId, b: VarId) -> (inst: Self)
        ensures
            inst@ == defining(Opcode::Gt, destination, seq![a, b]),
            inst@.well_formed(),
    {
        Self { opcode: Opcode::Gt, destination: Some(destination), args: vec![a, b] }
    }

    pub fn eq(destination: VarId, a: VarId, b: VarId) -> (inst: Self)
        ensures
            inst@ == defining(Opcode::Eq, destination, seq![a, b]),
            inst@.well_formed(),
    {
        Self { opcode: Opcode::Eq, destination: Some(destination), args: vec![a, b] }
    }

    pub fn is_zero(destination: VarId, a: VarId) -> (inst: Self)
        ensures
            inst@ == defining(Opcode::IsZero, destination, seq![a]),
            inst@.well_formed(),
    {
        let args: Vec<VarId> = vec![a];
        assert(args@ =~= seq![a]);
        Self { opcode: Opcode::IsZero, destination: Some(destination), args }
    }

    pub fn and(destination: VarId, a: VarId, b: VarId) -> (inst: Self)
        ensures
            inst@ == defining(Opcode::And, destination, seq![a, b]),
            inst@.well_formed(),
    {
        Self { opcode: Opcode::And, destination: Some(destination), args: vec![a, b] }
    }

    pub fn or(destination: VarId, a: VarId, b: VarId) -> (inst: Self)
        ensures
            inst@ == defining(Opcode::Or, destination, seq![a, b]),
            inst@.well_formed(),
    {
        Self { opcode: Opcode::Or, destination: Some(destination), args: vec![a, b] }
    }

    pub fn xor(destination: VarId, a: VarId, b: VarId) -> (inst: Self)
        ensures
            inst@ == defining(Opcode::Xor, destination, seq![a, b]),
            inst@.well_formed(),
    {
        Self { opcode: Opcode::Xor, destination: Some(destination), args: vec![a, b] }
    }

    pub fn not(destination: VarId, a: VarId) -> (inst: Self)
        ensures
            inst@ == defining(Opcode::Not, destination, seq![a]),
            inst@.well_formed(),
    {
        let args: Vec<VarId> = vec![a];
        assert(args@ =~= seq![a]);
        Self { opcode: Opcode::Not, destination: Some(destination), args }
    }

    pub fn byte(destination: VarId, index: VarId, a: VarId) -> (inst: Self)
        ensures
            inst@ == defining(Opcode::Byte, destination, seq![index, a]),
            inst@.well_formed(),
    {
        Self { opcode: Opcode::Byte, destination: Some(destination), args: vec![index, a] }
    }

    pub fn shl(destination: VarId, shift: VarId, a: VarId) -> (inst: Self)
        ensures
            inst@ == defining(Opcode::Shl, destination, seq![shift, a]),
            inst@.well_formed(),
    {
        Self { opcode: Opcode::Shl, destination: Some(destination), args: vec![shift, a] }
    }

    pub fn shr(destination: VarId, shift: VarId, a: VarId) -> (inst: Self)
        ensures
            inst@ == defining(Opcode::Shr, destination, seq![shift, a]),
            inst@.well_formed(),
    {
        Self { opcode: Opcode::Shr, destination: Some(destination), args: vec![shift, a] }
    }

    pub fn sar(destination: VarId, shift: VarId, a: VarId) -> (inst: Self)
        ensures
            inst@ == defining(Opcode::Sar, destination, seq![shift, a]),
            inst@.well_formed(),
    {
        Self { opcode: Opcode::Sar, destination: Some(destination), args: vec![shift, a] }
    }

    pub fn sha3(destination: VarId, offset: VarId, size: VarId) -> (inst: Self)
        ensures
            inst@ == defining(Opcode::Sha3, destination, seq![offset, size]),
            inst@.well_formed(),
    {
        Self { opcode: Opcode::Sha3, destination: Some(destination), args: vec![offset, size] }
    }

    pub fn address(destination: VarId) -> (inst: Self)
        ensures
            inst@ == defining(Opcode::Address, destination, Seq::empty()),
            inst@.well_formed(),
    {
        Self { opcode: Opcode::Address, destination: Some(destination), args: Vec::new() }
    }

    pub fn external_balance(destination: VarId, address: VarId) -> (inst: Self)
        ensures
            inst@ == defining(Opcode::ExternalBalance, destination, seq![address]),
            inst@.well_formed(),
    {
        let args: Vec<VarId> = vec![address];
        assert(args@ =~= seq![address]);
        Self { opcode: Opcode::ExternalBalance, destination: Some(destination), args }
    }

    pub fn tx_origin(destination: VarId) -> (inst: Self)
        ensures
            inst@ == defining(Opcode::TxOrigin, destination, Seq::empty()),
            inst@.well_formed(),
    {
        Self { opcode: Opcode::TxOrigin, destination: Some(destination), args: Vec::new() }
    }

    pub fn caller(destination: VarId) -> (inst: Self)
        ensures
            inst@ == defining(Opcode::Caller, destination, Seq::empty()),
            inst@.well_formed(),
    {
        Self { opcode: Opcode::Caller, destination: Some(destination), args: Vec::new() }
    }

    pub fn call_value(destination: VarId) -> (inst: Self)
        ensures
            inst@ == defining(Opcode::CallValue, destination, Seq::empty()),
            inst@.well_formed(),
    {
        Self { opcode: Opcode::CallValue, destination: Some(destination), args: Vec::new() }
    }

    pub fn call_data(destination: VarId, index: VarId) -> (inst: Self)
        ensures
            inst@ == defining(Opcode::CallData, destination, seq![index]),
            inst@.well_formed(),
    {
        let args: Vec<VarId> = vec![index];
        assert(args@ =~= seq![index]);
        Self { opcode: Opcode::CallData, destination: Some(destination), args }
    }

    pub fn call_data_size(destination: VarId) -> (inst: Self)
        ensures
            inst@ == defining(Opcode::CallDataSize, destination, Seq::empty()),
            inst@.well_formed(),
    {
        Self { opcode: Opcode::CallDataSize, destination: Some(destination), args: Vec::new() }
    }

    pub fn copy_call_data(
        dest_pointer: VarId,
        source_pointer: VarId,
        size_in_bytes: VarId,
    ) -> (inst: Self)
        ensures
            inst@ == effect_only(
                Opcode::CopyCallData,
                seq![dest_pointer, source_pointer, size_in_bytes],
            ),
            inst@.well_formed(),
    {
        Self {
            opcode: Opcode::CopyCallData,
            destination: None,
            args: vec![dest_pointer, source_pointer, size_in_bytes],
        }
    }

    pub fn code_size(destination: VarId) -> (inst: Self)
        ensures
            inst@ == defining(Opcode::CodeSize, destination, Seq::empty()),
            inst@.well_formed(),
    {
        Self { opcode: Opcode::CodeSize, destination: Some(destination), args: Vec::new() }
    }

    pub fn copy_code(
        dest_pointer: VarId,
        source_pointer: VarId,
        size_in_bytes: VarId,
    ) -> (inst: Self)
        ensures
            inst@ == effect_only(
                Opcode::CopyCode,
                seq![dest_pointer, source_pointer, size_in_bytes],
            ),
            inst@.well_formed(),
    {
        Self {
            opcode: Opcode::CopyCode,
            destination: None,
            args: vec![dest_pointer, source_pointer, size_in_bytes],
        }
    }

    pub fn tx_gas_price(destination: VarId) -> (inst: Self)
        ensures
            inst@ == defining(Opcode::TxGasPrice, destination, Seq::empty()),
            inst@.well_formed(),
    {
        Self { opcode: Opcode::TxGasPrice, destination: Some(destination), args: Vec::new() }
    }

    pub fn external_code_size(destination: VarId, address: VarId) -> (inst: Self)
        ensures
            inst@ == defining(Opcode::ExternalCodeSize, destination, seq![address]),
            inst@.well_formed(),
    {
        let args: Vec<VarId> = vec![address];
        assert(args@ =~= seq![address]);
        Self { opcode: Opcode::ExternalCodeSize, destination: Some(destination), args }
    }

    pub fn copy_external_code(
        address: VarId,
        dest_pointer: VarId,
        source_pointer: VarId,
        size_in_bytes: VarId,
    ) -> (inst: Self)
        ensures
            inst@ == effect_only(
                Opcode::CopyExternalCode,
                seq![address, dest_pointer, source_pointer, size_in_bytes],
            ),
            inst@.well_formed(),
    {
        Self {
            opcode: Opcode::CopyExternalCode,
            destination: None,
            args: vec![address, dest_pointer, source_pointer, size_in_bytes],
        }
    }

    pub fn return_data_size(destination: VarId) -> (inst: Self)
        ensures
            inst@ == defining(Opcode::ReturnDataSize, destination, Seq::empty()),
            inst@.well_formed(),
    {
        Self { opcode: Opcode::ReturnDataSize, destination: Some(destination), args: Vec::new() }
    }

    pub fn copy_return_data(
        dest_pointer: VarId,
        source_pointer: VarId,
        size_in_bytes: VarId,
    ) -> (inst: Self)
        ensures
            inst@ == effect_only(
                Opcode::CopyReturnData,
                seq![dest_pointer, source_pointer, size_in_bytes],
            ),
            inst@.well_formed(),
    {
        Self {
            opcode: Opcode::CopyReturnData,
            destination: None,
            args: vec![dest_pointer, source_pointer, size_in_bytes],
        }
    }

    pub fn external_code_hash(destination: VarId, address: VarId) -> (inst: Self)
        ensures
            inst@ == defining(Opcode::ExternalCodeHash, destination, seq![address]),
            inst@.well_formed(),
    {
        let args: Vec<VarId> = vec![address];
        assert(args@ =~= seq![address]);
        Self { opcode: Opcode::ExternalCodeHash, destination: Some(destination), args }
    }

    pub fn block_hash(destination: VarId, block_number: VarId) -> (inst: Self)
        ensures
            inst@ == defining(Opcode::BlockHash, destination, seq![block_number]),
            inst@.well_formed(),
    {
        let args: Vec<VarId> = vec![block_number];
        assert(args@ =~= seq![block_number]);
        Self { opcode: Opcode::BlockHash, destination: Some(destination), args }
    }

    pub fn block_coinbase(destination: VarId) -> (inst: Self)
        ensures
            inst@ == defining(Opcode::BlockCoinbase, destination, Seq::empty()),
            inst@.well_formed(),
    {
        Self { opcode: Opcode::BlockCoinbase, destination: Some(destination), args: Vec::new() }
    }

    pub fn block_timestamp(destination: VarId) -> (inst: Self)
        ensures
            inst@ == defining(Opcode::BlockTimestamp, destination, Seq::empty()),
            inst@.well_formed(),
    {
        Self { opcode: Opcode::BlockTimestamp, destination: Some(destination), args: Vec::new() }
    }

    pub fn block_number(destination: VarId) -> (inst: Self)
        ensures
            inst@ == defining(Opcode::BlockNumber, destination, Seq::empty()),
            inst@.well_formed(),
    {
        Self { opcode: Opcode::BlockNumber, destination: Some(destination), args: Vec::new() }
    }

    pub fn block_difficulty(destination: VarId) -> (inst: Self)
        ensures
            inst@ == defining(Opcode::BlockDifficulty, destination, Seq::empty()),
            inst@.well_formed(),
    {
        Self { opcode: Opcode::BlockDifficulty, destination: Some(destination), args: Vec::new() }
    }

    pub fn block_gas_limit(destination: VarId) -> (inst: Self)
        ensures
            inst@ == defining(Opcode::BlockGasLimit, destination, Seq::empty()),
            inst@.well_formed(),
    {
        Self { opcode: Opcode::BlockGasLimit, destination: Some(destination), args: Vec::new() }
    }

    pub fn chain_id(destination: VarId) -> (inst: Self)
        ensures
            inst@ == defining(Opcode::ChainId, destination, Seq::empty()),
            inst@.well_formed(),
    {
        Self { opcode: Opcode::ChainId, destination: Some(destination), args: Vec::new() }
    }

    pub fn balance(destination: VarId) -> (inst: Self)
        ensures
            inst@ == defining(Opcode::Balance, destination, Seq::empty()),
            inst@.well_formed(),
    {
        Self { opcode: Opcode::Balance, destination: Some(destination), args: Vec::new() }
    }

    pub fn base_fee(destination: VarId) -> (inst: Self)
        ensures
            inst@ == defining(Opcode::BaseFee, destination, Seq::empty()),
            inst@.well_formed(),
    {
        Self { opcode: Opcode::BaseFee, destination: Some(destination), args: Vec::new() }
    }

    pub fn load(destination: VarId) -> (inst: Self)
        ensures
            inst@ == defining(Opcode::Load, destination, Seq::empty()),
            inst@.well_formed(),
    {
        Self { opcode: Opcode::Load, destination: Some(destination), args: Vec::new() }
    }

    pub fn store() -> (inst: Self)
        ensures
            inst@ == effect_only(Opcode::Store, Seq::empty()),
            inst@.well_formed(),
    {
        Self { opcode: Opcode::Store, destination: None, args: Vec::new() }
    }

    pub fn store8() -> (inst: Self)
        ensures
            inst@ == effect_only(Opcode::Store8, Seq::empty()),
            inst@.well_formed(),
    {
        Self { opcode: Opcode::Store8, destination: None, args: Vec::new() }
    }

    pub fn load_storage(destination: VarId) -> (inst: Self)
        ensures
            inst@ == defining(Opcode::LoadStorage, destination, Seq::empty()),
            inst@.well_formed(),
    {
        Self { opcode: Opcode::LoadStorage, destination: Some(destination), args: Vec::new() }
    }

    pub fn store_storage() -> (inst: Self)
        ensures
            inst@ == effect_only(Opcode::StoreStorage, Seq::empty()),
            inst@.well_formed(),
    {
        Self { opcode: Opcode::StoreStorage, destination: None, args: Vec::new() }
    }

    pub fn jump(counter: VarId) -> (inst: Self)
        ensures
            inst@ == effect_only(Opcode::Jump, seq![counter]),
            inst@.well_formed(),
    {
        let args: Vec<VarId> = vec![counter];
        assert(args@ =~= seq![counter]);
        Self { opcode: Opcode::Jump, destination: None, args }
    }

    pub fn memory_size(destination: VarId) -> (inst: Self)
        ensures
            inst@ == defining(Opcode::MemorySize, destination, Seq::empty()),
            inst@.well_formed(),
    {
        Self { opcode: Opcode::MemorySize, destination: Some(destination), args: Vec::new() }
    }

    pub fn gas_left(destination: VarId) -> (inst: Self)
        ensures
            inst@ == defining(Opcode::GasLeft, destination, Seq::empty()),
            inst@.well_formed(),
    {
        Self { opcode: Opcode::GasLeft, destination: Some(destination), args: Vec::new() }
    }

    pub fn create(
        destination: VarId,
        value: VarId,
        pointer: VarId,
        size_in_bytes: VarId,
    ) -> (inst: Self)
        ensures
            inst@ == defining(Opcode::Create, destination, seq![value, pointer, size_in_bytes]),
            inst@.well_formed(),
    {
        Self {
            opcode: Opcode::Create,
            destination: Some(destination),
            args: vec![value, pointer, size_in_bytes],
        }
    }

    #[allow(clippy::too_many_arguments)]
    pub fn call(
        destination: VarId,
        gas: VarId,
        address: VarId,
        value: VarId,
        args_pointer: VarId,
        args_size_in_bytes: VarId,
        return_pointer: VarId,
        return_size_in_bytes: VarId,
    ) -> (inst: Self)
        ensures
            inst@ == defining(
                Opcode::Call,
                destination,
                seq![
                    gas,
                    address,
                    value,
                    args_pointer,
                    args_size_in_bytes,
                    return_pointer,
                    return_size_in_bytes,
                ],
            ),
            inst@.well_formed(),
    {
        Self {
            opcode: Opcode::Call,
            destination: Some(destination),
            args: vec![
                gas,
                address,
                value,
                args_pointer,
                args_size_in_bytes,
                return_pointer,
                return_size_in_bytes,
            ],
        }
    }

    #[allow(clippy::too_many_arguments)]
    pub fn call_code(
        destination: VarId,
        gas: VarId,
        address: VarId,
        value: VarId,
        args_pointer: VarId,
        args_size_in_bytes: VarId,
        return_pointer: VarId,
        return_size_in_bytes: VarId,
    ) -> (inst: Self)
        ensures
            inst@ == defining(
                Opcode::CallCode,
                destination,
                seq![
                    gas,
                    address,
                    value,
                    args_pointer,
                    args_size_in_bytes,
                    return_pointer,
                    return_size_in_bytes,
                ],
            ),
            inst@.well_formed(),
    {
        Self {
            opcode: Opcode::CallCode,
            destination: Some(destination),
            args: vec![
                gas,
                address,
                value,
                args_pointer,
                args_size_in_bytes,
                return_pointer,
                return_size_in_bytes,
            ],
        }
    }

    pub fn finish(pointer: VarId, size_in_bytes: VarId) -> (inst: Self)
        ensures
            inst@ == effect_only(Opcode::Finish, seq![pointer, size_in_bytes]),
            inst@.well_formed(),
    {
        Self { opcode: Opcode::Finish, destination: None, args: vec![pointer, size_in_bytes] }
    }

    pub fn call_delegate(
        destination: VarId,
        gas: VarId,
        address: VarId,
        args_pointer: VarId,
        args_size_in_bytes: VarId,
        return_pointer: VarId,
        return_size_in_bytes: VarId,
    ) -> (inst: Self)
        ensures
            inst@ == defining(
                Opcode::CallDelegate,
                destination,
                seq![
                    gas,
                    address,
                    args_pointer,
                    args_size_in_bytes,
                    return_pointer,
                    return_size_in_bytes,
                ],
            ),
            inst@.well_formed(),
    {
        Self {
            opcode: Opcode::CallDelegate,
            destination: Some(destination),
            args: vec![
                gas,
                address,
                args_pointer,
                args_size_in_bytes,
                return_pointer,
                return_size_in_bytes,
            ],
        }
    }

    pub fn call_static(
        destination: VarId,
        gas: VarId,
        address: VarId,
        args_pointer: VarId,
        args_size_in_bytes: VarId,
        return_pointer: VarId,
        return_size_in_bytes: VarId,
    ) -> (inst: Self)
        ensures
            inst@ == defining(
                Opcode::CallStatic,
                destination,
                seq![
                    gas,
                    address,
                    args_pointer,
                    args_size_in_bytes,
                    return_pointer,
                    return_size_in_bytes,
                ],
            ),
            inst@.well_formed(),
    {
        Self {
            opcode: Opcode::CallStatic,
            destination: Some(destination),
            args: vec![
                gas,
                address,
                args_pointer,
                args_size_in_bytes,
                return_pointer,
                return_size_in_bytes,
            ],
        }
    }

    pub fn revert(pointer: VarId, size_in_bytes: VarId) -> (inst: Self)
        ensures
            inst@ == effect_only(Opcode::Revert, seq![pointer, size_in_bytes]),
            inst@.well_formed(),
    {
        Self { opcode: Opcode::Revert, destination: None, args: vec![pointer, size_in_bytes] }
    }

    pub fn self_destruct(address: VarId) -> (inst: Self)
        ensures
            inst@ == effect_only(Opcode::SelfDestruct, seq![address]),
            inst@.well_formed(),
    {
        let args: Vec<VarId> = vec![address];
        assert(args@ =~= seq![address]);
        Self { opcode: Opcode::SelfDestruct, destination: None, args }
    }
}

} // verus!
