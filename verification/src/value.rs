//! Types and literal values of the contract ABI, checked for fit.
//!
//! A [`Value`] pairs a literal with the [`CompoundType`] it was checked
//! against. Integers and fixed-point numbers are accepted only where the
//! number fits in the byte width that was asked for.

use num_bigint::{BigInt, BigUint};
use vstd::arithmetic::power2::pow2;
use vstd::prelude::*;

use crate::util::bigint::{bigint_bits, bigint_value, biguint_bits, biguint_value, magnitude};
use crate::util::bits::{
    bit_length,
    bytes_for_bits,
    lemma_bit_length_at_most,
    signed_byte_len,
    unsigned_byte_len,
};

verus! {

/// A literal together with the type it was accepted as.
#[derive(Debug, PartialEq, Eq)]
pub struct Value {
    pub ty: CompoundType,
    pub value: ValueKind,
}

#[derive(Debug, PartialEq, Eq)]
pub enum ValueKind {
    UInt(BigUint),
    Int(BigInt),
    Address([u8; 20]),
    Bool(bool),
    UFixed(BigUint),
    Fixed(BigInt),
    Bytes(Vec<u8>),
    ByteVector(Vec<u8>),
    Function([u8; 20], [u8; 4]),
    String(String),
}

/// A byte width that integers and fixed-point numbers may have.
pub open spec fn width_in_range(num_bytes: u8) -> bool {
    1 <= num_bytes <= 32
}

/// A position of the decimal point that fixed-point numbers may have.
pub open spec fn point_in_range(point_position: u8) -> bool {
    1 <= point_position <= 80
}

/// `value` can be written as an unsigned number of `num_bytes` bytes.
pub open spec fn fits_unsigned(num_bytes: u8, value: nat) -> bool {
    value < pow2(8 * num_bytes as nat)
}

/// `value` can be written in `num_bytes` bytes with one bit kept for the
/// sign: its magnitude takes at most `8 * num_bytes - 1` bits.
pub open spec fn fits_signed(num_bytes: u8, value: int) -> bool {
    num_bytes >= 1 && magnitude(value) < pow2((8 * num_bytes - 1) as nat)
}

/// The inputs on which [`Value::uint`] yields a value.
pub open spec fn uint_accepts(num_bytes: u8, value: nat) -> bool {
    width_in_range(num_bytes) && fits_unsigned(num_bytes, value)
}

/// The inputs on which [`Value::sint`] yields a value.
pub open spec fn sint_accepts(num_bytes: u8, value: int) -> bool {
    width_in_range(num_bytes) && fits_signed(num_bytes, value)
}

/// The inputs on which [`Value::ufixed`] yields a value.
pub open spec fn ufixed_accepts(num_bytes: u8, point_position: u8, value: nat) -> bool {
    width_in_range(num_bytes) && point_in_range(point_position) && fits_unsigned(num_bytes, value)
}

/// The inputs on which [`Value::fixed`] yields a value.
pub open spec fn fixed_accepts(num_bytes: u8, point_position: u8, value: int) -> bool {
    width_in_range(num_bytes) && point_in_range(point_position) && fits_signed(num_bytes, value)
}

/// Whether a byte width is one that integers may have.
pub fn width_is_valid(num_bytes: u8) -> (valid: bool)
    ensures
        valid == width_in_range(num_bytes),
{
    1 <= num_bytes && num_bytes <= 32
}

/// Whether a decimal point position is one that fixed-point numbers may have.
pub fn point_position_is_valid(point_position: u8) -> (valid: bool)
    ensures
        valid == point_in_range(point_position),
{
    !(point_position == 0 || point_position > 80)
}

/// Whether an unsigned number of `bits` bits fits in `num_bytes` bytes.
pub fn unsigned_bits_fit(num_bytes: u8, bits: u64) -> (fit: bool)
    ensures
        fit == (bytes_for_bits(bits as nat) <= num_bytes),
        fit == (bits <= 8 * num_bytes),
{
    !(unsigned_byte_len(bits) > num_bytes as u64)
}

/// Whether a signed number whose magnitude has `bits` bits fits in
/// `num_bytes` bytes, the sign bit counted.
pub fn signed_bits_fit(num_bytes: u8, bits: u64) -> (fit: bool)
    ensures
        fit == (bytes_for_bits(bits as nat + 1) <= num_bytes),
        fit == (bits + 1 <= 8 * num_bytes),
{
    !(signed_byte_len(bits) > num_bytes as u64)
}

/// A number is below `2^(8 * num_bytes)` exactly when its bit length is at
/// most `8 * num_bytes`.
pub proof fn lemma_unsigned_fit(num_bytes: u8, value: nat)
    ensures
        fits_unsigned(num_bytes, value) <==> bit_length(value) <= 8 * num_bytes,
{
    lemma_bit_length_at_most(value, 8 * num_bytes as nat);
}

/// A magnitude is below `2^(8 * num_bytes - 1)` exactly when its bit length
/// leaves room for the sign bit in `num_bytes` bytes.
pub proof fn lemma_signed_fit(num_bytes: u8, value: int)
    ensures
        fits_signed(num_bytes, value) <==> num_bytes >= 1 && bit_length(magnitude(value)) + 1 <= 8
            * num_bytes,
{
    if num_bytes >= 1 {
        lemma_bit_length_at_most(magnitude(value), (8 * num_bytes - 1) as nat);
    }
}

/// Whatever the number, a fixed-point value is refused where the decimal
/// point is at 0 or beyond 80. Where the width and the point are in range, it
/// is accepted exactly when the number with its sign bit takes at most
/// `8 * num_bytes` bits.
pub proof fn lemma_fixed_acceptance(num_bytes: u8, point_position: u8, value: int)
    ensures
        point_position == 0 || point_position > 80 ==> !fixed_accepts(
            num_bytes,
            point_position,
            value,
        ),
        width_in_range(num_bytes) && point_in_range(point_position) ==> (fixed_accepts(
            num_bytes,
            point_position,
            value,
        ) <==> bit_length(magnitude(value)) + 1 <= 8 * num_bytes),
{
    lemma_signed_fit(num_bytes, value);
}

/// The unsigned counterpart of [`lemma_fixed_acceptance`].
pub proof fn lemma_ufixed_acceptance(num_bytes: u8, point_position: u8, value: nat)
    ensures
        point_position == 0 || point_position > 80 ==> !ufixed_accepts(
            num_bytes,
            point_position,
            value,
        ),
        width_in_range(num_bytes) && point_in_range(point_position) ==> (ufixed_accepts(
            num_bytes,
            point_position,
            value,
        ) <==> bit_length(value) <= 8 * num_bytes),
{
    lemma_unsigned_fit(num_bytes, value);
}

impl Value {
    /// An unsigned integer of `num_bytes` bytes, if `value` fits in them.
    pub fn uint(num_bytes: u8, value: BigUint) -> (result: Option<Self>)
        ensures
            result is Some <==> uint_accepts(num_bytes, biguint_value(value)),
            result matches Some(v) ==> v.ty == CompoundType::Primitive(Type::UInt(num_bytes))
                && v.value == ValueKind::UInt(value),
    {
        proof {
            lemma_unsigned_fit(num_bytes, biguint_value(value));
        }
        if !width_is_valid(num_bytes) {
            None
        } else if !unsigned_bits_fit(num_bytes, biguint_bits(&value)) {
            None
        } else {
            Some(Self { ty: CompoundType::uint(num_bytes), value: ValueKind::UInt(value) })
        }
    }

    /// A signed integer of `num_bytes` bytes, if `value` fits in them.
    pub fn sint(num_bytes: u8, value: BigInt) -> (result: Option<Self>)
        ensures
            result is Some <==> sint_accepts(num_bytes, bigint_value(value)),
            result matches Some(v) ==> v.ty == CompoundType::Primitive(Type::Int(num_bytes))
                && v.value == ValueKind::Int(value),
    {
        proof {
            lemma_signed_fit(num_bytes, bigint_value(value));
        }
        if !width_is_valid(num_bytes) {
            None
        } else if !signed_bits_fit(num_bytes, bigint_bits(&value)) {
            None
        } else {
            Some(Self { ty: CompoundType::sint(num_bytes), value: ValueKind::Int(value) })
        }
    }

    pub fn address(value: [u8; 20]) -> (result: Self)
        ensures
            result.ty == CompoundType::Primitive(Type::Address),
            result.value == ValueKind::Address(value),
    {
        Self { ty: CompoundType::address(), value: ValueKind::Address(value) }
    }

    pub fn bool(value: bool) -> (result: Self)
        ensures
            result.ty == CompoundType::Primitive(Type::Bool),
            result.value == ValueKind::Bool(value),
    {
        Self { ty: CompoundType::bool(), value: ValueKind::Bool(value) }
    }

    /// An unsigned fixed-point number of `num_bytes` bytes with the decimal
    /// point `point_position` digits from the right, if the position is
    /// between 1 and 80 and `value` fits.
    pub fn ufixed(num_bytes: u8, point_position: u8, value: BigUint) -> (result: Option<Self>)
        ensures
            result is Some <==> ufixed_accepts(num_bytes, point_position, biguint_value(value)),
            result matches Some(v) ==> v.ty == CompoundType::Primitive(
                Type::UFixed(num_bytes, point_position),
            ) && v.value == ValueKind::UFixed(value),
    {
        proof {
            lemma_unsigned_fit(num_bytes, biguint_value(value));
        }
        if !width_is_valid(num_bytes) {
            None
        } else if !point_position_is_valid(point_position) {
            None
        } else if !unsigned_bits_fit(num_bytes, biguint_bits(&value)) {
            None
        } else {
            Some(
                Self {
                    ty: CompoundType::ufixed(num_bytes, point_position),
                    value: ValueKind::UFixed(value),
                },
            )
        }
    }

    /// The signed counterpart of [`Value::ufixed`].
    pub fn fixed(num_bytes: u8, point_position: u8, value: BigInt) -> (result: Option<Self>)
        ensures
            result is Some <==> fixed_accepts(num_bytes, point_position, bigint_value(value)),
            result matches Some(v) ==> v.ty == CompoundType::Primitive(
                Type::Fixed(num_bytes, point_position),
            ) && v.value == ValueKind::Fixed(value),
    {
        proof {
            lemma_signed_fit(num_bytes, bigint_value(value));
        }
        if !width_is_valid(num_bytes) {
            None
        } else if !point_position_is_valid(point_position) {
            None
        } else if !signed_bits_fit(num_bytes, bigint_bits(&value)) {
            None
        } else {
            Some(
                Self {
                    ty: CompoundType::fixed(num_bytes, point_position),
                    value: ValueKind::Fixed(value),
                },
            )
        }
    }

    pub fn bytes(num_bytes: u8, value: Vec<u8>) -> (result: Self)
        ensures
            result.ty == CompoundType::Primitive(Type::Bytes(num_bytes)),
            result.value == ValueKind::Bytes(value),
    {
        Self { ty: CompoundType::bytes(num_bytes), value: ValueKind::Bytes(value) }
    }

    pub fn byte_vector(value: Vec<u8>) -> (result: Self)
        ensures
            result.ty == CompoundType::Primitive(Type::ByteVector),
            result.value == ValueKind::ByteVector(value),
    {
        Self { ty: CompoundType::byte_vector(), value: ValueKind::ByteVector(value) }
    }

    pub fn function(address: [u8; 20], function_selector: [u8; 4]) -> (result: Self)
        ensures
            result.ty == CompoundType::Primitive(Type::Function),
            result.value == ValueKind::Function(address, function_selector),
    {
        Self {
            ty: CompoundType::function(),
            value: ValueKind::Function(address, function_selector),
        }
    }

    pub fn string(value: String) -> (result: Self)
        ensures
            result.ty == CompoundType::Primitive(Type::String),
            result.value == ValueKind::String(value),
    {
        Self { ty: CompoundType::string(), value: ValueKind::String(value) }
    }
}

/// Primitive types of the contract ABI.
#[derive(Clone, Copy, Debug, PartialEq, Eq, Structural)]
pub enum Type {
    /// Unsigned integer of the given number of bytes.
    UInt(u8),
    /// Signed integer of the given number of bytes.
    Int(u8),
    /// Contract address, an unsigned integer of 160 bits.
    Address,
    /// Boolean: a one-byte unsigned integer that holds 0 or 1.
    Bool,
    /// Unsigned fixed-point decimal: the number of bytes, then the position
    /// of the decimal point.
    UFixed(u8, u8),
    /// Signed counterpart of `UFixed`.
    Fixed(u8, u8),
    /// Byte string of the given fixed length.
    Bytes(u8),
    /// Byte string of dynamic length.
    ByteVector,
    /// A contract address of 20 bytes and a function selector of 4 bytes.
    Function,
    /// UTF-8 encoded string.
    String,
}

/// Compound types of the contract ABI.
#[derive(Debug, PartialEq, Eq)]
pub enum CompoundType {
    /// A primitive type.
    Primitive(Type),
    /// An array of fixed length.
    Array(usize, Box<CompoundType>),
    /// An array of dynamic length.
    Vector(Box<CompoundType>),
    /// A tuple.
    Tuple(Vec<CompoundType>),
}

impl CompoundType {
    pub fn uint(num_bytes: u8) -> (ty: Self)
        ensures
            ty == CompoundType::Primitive(Type::UInt(num_bytes)),
    {
        Self::Primitive(Type::UInt(num_bytes))
    }

    pub fn sint(num_bytes: u8) -> (ty: Self)
        ensures
            ty == CompoundType::Primitive(Type::Int(num_bytes)),
    {
        Self::Primitive(Type::Int(num_bytes))
    }

    pub fn address() -> (ty: Self)
        ensures
            ty == CompoundType::Primitive(Type::Address),
    {
        Self::Primitive(Type::Address)
    }

    pub fn bool() -> (ty: Self)
        ensures
            ty == CompoundType::Primitive(Type::Bool),
    {
        Self::Primitive(Type::Bool)
    }

    pub fn ufixed(num_bytes: u8, point_position: u8) -> (ty: Self)
        ensures
            ty == CompoundType::Primitive(Type::UFixed(num_bytes, point_position)),
    {
        Self::Primitive(Type::UFixed(num_bytes, point_position))
    }

    pub fn fixed(num_bytes: u8, point_position: u8) -> (ty: Self)
        ensures
            ty == CompoundType::Primitive(Type::Fixed(num_bytes, point_position)),
    {
        Self::Primitive(Type::Fixed(num_bytes, point_position))
    }

    pub fn bytes(num_bytes: u8) -> (ty: Self)
        ensures
            ty == CompoundType::Primitive(Type::Bytes(num_bytes)),
    {
        Self::Primitive(Type::Bytes(num_bytes))
    }

    pub fn byte_vector() -> (ty: Self)
        ensures
            ty == CompoundType::Primitive(Type::ByteVector),
    {
        Self::Primitive(Type::ByteVector)
    }

    pub fn function() -> (ty: Self)
        ensures
            ty == CompoundType::Primitive(Type::Function),
    {
        Self::Primitive(Type::Function)
    }

    pub fn string() -> (ty: Self)
        ensures
            ty == CompoundType::Primitive(Type::String),
    {
        Self::Primitive(Type::String)
    }

    pub fn to_array(self, num_elements: usize) -> (ty: Self)
        ensures
            ty == CompoundType::Array(num_elements, Box::new(self)),
    {
        Self::Array(num_elements, Box::new(self))
    }

    pub fn to_vector(self) -> (ty: Self)
        ensures
            ty == CompoundType::Vector(Box::new(self)),
    {
        Self::Vector(Box::new(self))
    }

    pub fn tuple(elements: Vec<Self>) -> (ty: Self)
        ensures
            ty == CompoundType::Tuple(elements),
    {
        Self::Tuple(elements)
    }
}

} // verus!
