use evm_ir::util::bits::{signed_byte_len, unsigned_byte_len};
use evm_ir::value::{
    point_position_is_valid, signed_bits_fit, unsigned_bits_fit, width_is_valid, CompoundType,
    Type, Value, ValueKind,
};
use num_bigint::{BigInt, BigUint};

fn two_to_the(bits: usize) -> BigUint {
    BigUint::from(1u8) << bits
}

fn signed_two_to_the(bits: usize) -> BigInt {
    BigInt::from(1) << bits
}

#[test]
fn uint_255_fits_one_byte() {
    let value = Value::uint(1, BigUint::from(255u32)).unwrap();
    assert_eq!(value.ty, CompoundType::Primitive(Type::UInt(1)));
    assert_eq!(value.value, ValueKind::UInt(BigUint::from(255u32)));
}

#[test]
fn uint_256_needs_two_bytes() {
    assert!(Value::uint(1, BigUint::from(256u32)).is_none());
    assert!(Value::uint(2, BigUint::from(256u32)).is_some());
}

#[test]
fn uint_zero_fits_every_width() {
    assert!(Value::uint(1, BigUint::from(0u8)).is_some());
    assert!(Value::uint(32, BigUint::from(0u8)).is_some());
}

#[test]
fn uint_width_must_be_1_to_32() {
    assert!(Value::uint(0, BigUint::from(0u8)).is_none());
    assert!(Value::uint(33, BigUint::from(0u8)).is_none());
    assert!(Value::uint(255, BigUint::from(1u8)).is_none());
}

#[test]
fn uint_widest_boundary() {
    let max = two_to_the(256) - BigUint::from(1u8);
    assert!(Value::uint(32, max.clone()).is_some());
    assert!(Value::uint(31, max).is_none());
    assert!(Value::uint(32, two_to_the(256)).is_none());
}

#[test]
fn sint_counts_the_sign_bit() {
    assert!(Value::sint(1, BigInt::from(127)).is_some());
    assert!(Value::sint(1, BigInt::from(128)).is_none());
    assert!(Value::sint(1, BigInt::from(-127)).is_some());
    assert!(Value::sint(1, BigInt::from(-128)).is_none());
    assert!(Value::sint(2, BigInt::from(-128)).is_some());
    assert!(Value::sint(1, BigInt::from(0)).is_some());
}

#[test]
fn sint_keeps_type_and_value() {
    let value = Value::sint(4, BigInt::from(-5)).unwrap();
    assert_eq!(value.ty, CompoundType::Primitive(Type::Int(4)));
    assert_eq!(value.value, ValueKind::Int(BigInt::from(-5)));
}

#[test]
fn sint_width_must_be_1_to_32() {
    assert!(Value::sint(0, BigInt::from(0)).is_none());
    assert!(Value::sint(33, BigInt::from(0)).is_none());
}

#[test]
fn sint_widest_boundary() {
    let limit = signed_two_to_the(255);
    assert!(Value::sint(32, limit.clone() - BigInt::from(1)).is_some());
    assert!(Value::sint(32, limit.clone()).is_none());
    assert!(Value::sint(32, BigInt::from(1) - limit.clone()).is_some());
    assert!(Value::sint(32, -limit).is_none());
}

#[test]
fn ufixed_checks_point_position() {
    assert!(Value::ufixed(4, 0, BigUint::from(1u8)).is_none());
    assert!(Value::ufixed(4, 81, BigUint::from(1u8)).is_none());
    assert!(Value::ufixed(4, 1, BigUint::from(1u8)).is_some());
    assert!(Value::ufixed(4, 80, BigUint::from(1u8)).is_some());
}

#[test]
fn ufixed_checks_width_and_fit() {
    assert!(Value::ufixed(0, 10, BigUint::from(1u8)).is_none());
    assert!(Value::ufixed(33, 10, BigUint::from(1u8)).is_none());
    assert!(Value::ufixed(4, 10, two_to_the(32) - BigUint::from(1u8)).is_some());
    assert!(Value::ufixed(4, 10, two_to_the(32)).is_none());
    let value = Value::ufixed(2, 18, BigUint::from(65535u32)).unwrap();
    assert_eq!(value.ty, CompoundType::Primitive(Type::UFixed(2, 18)));
    assert_eq!(value.value, ValueKind::UFixed(BigUint::from(65535u32)));
}

#[test]
fn fixed_refuses_point_position_0_and_81() {
    for v in [BigInt::from(0), BigInt::from(1), BigInt::from(-1), signed_two_to_the(40)] {
        assert!(Value::fixed(4, 0, v.clone()).is_none());
        assert!(Value::fixed(4, 81, v).is_none());
    }
}

#[test]
fn fixed_at_40_accepts_what_fits_32_bits_with_sign() {
    let limit = signed_two_to_the(31);
    assert!(Value::fixed(4, 40, BigInt::from(0)).is_some());
    assert!(Value::fixed(4, 40, limit.clone() - BigInt::from(1)).is_some());
    assert!(Value::fixed(4, 40, limit.clone()).is_none());
    assert!(Value::fixed(4, 40, BigInt::from(1) - limit.clone()).is_some());
    assert!(Value::fixed(4, 40, -limit).is_none());
    let value = Value::fixed(4, 40, BigInt::from(-7)).unwrap();
    assert_eq!(value.ty, CompoundType::Primitive(Type::Fixed(4, 40)));
    assert_eq!(value.value, ValueKind::Fixed(BigInt::from(-7)));
}

#[test]
fn fixed_checks_width() {
    assert!(Value::fixed(0, 40, BigInt::from(0)).is_none());
    assert!(Value::fixed(33, 40, BigInt::from(0)).is_none());
    assert!(Value::fixed(32, 80, BigInt::from(0)).is_some());
}

#[test]
fn plain_values_carry_their_type() {
    let address = Value::address([7u8; 20]);
    assert_eq!(address.ty, CompoundType::Primitive(Type::Address));
    assert_eq!(address.value, ValueKind::Address([7u8; 20]));

    let truth = Value::bool(true);
    assert_eq!(truth.ty, CompoundType::Primitive(Type::Bool));
    assert_eq!(truth.value, ValueKind::Bool(true));

    let bytes = Value::bytes(3, vec![1, 2, 3]);
    assert_eq!(bytes.ty, CompoundType::Primitive(Type::Bytes(3)));
    assert_eq!(bytes.value, ValueKind::Bytes(vec![1, 2, 3]));

    let byte_vector = Value::byte_vector(vec![9, 8]);
    assert_eq!(byte_vector.ty, CompoundType::Primitive(Type::ByteVector));
    assert_eq!(byte_vector.value, ValueKind::ByteVector(vec![9, 8]));

    let function = Value::function([1u8; 20], [2u8; 4]);
    assert_eq!(function.ty, CompoundType::Primitive(Type::Function));
    assert_eq!(function.value, ValueKind::Function([1u8; 20], [2u8; 4]));

    let string = Value::string(String::from("abc"));
    assert_eq!(string.ty, CompoundType::Primitive(Type::String));
    assert_eq!(string.value, ValueKind::String(String::from("abc")));
}

#[test]
fn compound_type_builders() {
    assert_eq!(CompoundType::uint(5), CompoundType::Primitive(Type::UInt(5)));
    assert_eq!(CompoundType::sint(6), CompoundType::Primitive(Type::Int(6)));
    assert_eq!(CompoundType::address(), CompoundType::Primitive(Type::Address));
    assert_eq!(CompoundType::bool(), CompoundType::Primitive(Type::Bool));
    assert_eq!(CompoundType::ufixed(7, 8), CompoundType::Primitive(Type::UFixed(7, 8)));
    assert_eq!(CompoundType::fixed(9, 10), CompoundType::Primitive(Type::Fixed(9, 10)));
    assert_eq!(CompoundType::bytes(11), CompoundType::Primitive(Type::Bytes(11)));
    assert_eq!(CompoundType::byte_vector(), CompoundType::Primitive(Type::ByteVector));
    assert_eq!(CompoundType::function(), CompoundType::Primitive(Type::Function));
    assert_eq!(CompoundType::string(), CompoundType::Primitive(Type::String));
}

#[test]
fn compound_type_nesting() {
    let array = CompoundType::uint(1).to_array(4);
    assert_eq!(array, CompoundType::Array(4, Box::new(CompoundType::Primitive(Type::UInt(1)))));
    let vector = CompoundType::bool().to_vector();
    assert_eq!(vector, CompoundType::Vector(Box::new(CompoundType::Primitive(Type::Bool))));
    let tuple = CompoundType::tuple(vec![CompoundType::address(), CompoundType::string()]);
    assert_eq!(
        tuple,
        CompoundType::Tuple(vec![
            CompoundType::Primitive(Type::Address),
            CompoundType::Primitive(Type::String),
        ])
    );
    let nested = CompoundType::tuple(vec![]).to_vector().to_array(0);
    assert_eq!(
        nested,
        CompoundType::Array(
            0,
            Box::new(CompoundType::Vector(Box::new(CompoundType::Tuple(vec![]))))
        )
    );
}

#[test]
fn byte_lengths_round_up() {
    assert_eq!(unsigned_byte_len(0), 0);
    assert_eq!(unsigned_byte_len(1), 1);
    assert_eq!(unsigned_byte_len(8), 1);
    assert_eq!(unsigned_byte_len(9), 2);
    assert_eq!(unsigned_byte_len(256), 32);
    assert_eq!(unsigned_byte_len(257), 33);
    assert_eq!(unsigned_byte_len(u64::MAX), u64::MAX / 8 + 1);
    assert_eq!(signed_byte_len(0), 1);
    assert_eq!(signed_byte_len(7), 1);
    assert_eq!(signed_byte_len(8), 2);
    assert_eq!(signed_byte_len(255), 32);
    assert_eq!(signed_byte_len(256), 33);
    assert_eq!(signed_byte_len(u64::MAX), u64::MAX / 8 + 1);
}

#[test]
fn bit_counts_against_widths() {
    assert!(unsigned_bits_fit(1, 8));
    assert!(!unsigned_bits_fit(1, 9));
    assert!(unsigned_bits_fit(32, 256));
    assert!(!unsigned_bits_fit(32, 257));
    assert!(unsigned_bits_fit(0, 0));
    assert!(signed_bits_fit(1, 7));
    assert!(!signed_bits_fit(1, 8));
    assert!(signed_bits_fit(4, 31));
    assert!(!signed_bits_fit(4, 32));
    assert!(!signed_bits_fit(0, 0));
    assert!(!signed_bits_fit(32, u64::MAX));
}

#[test]
fn range_checks() {
    assert!(!width_is_valid(0));
    assert!(width_is_valid(1));
    assert!(width_is_valid(32));
    assert!(!width_is_valid(33));
    assert!(!point_position_is_valid(0));
    assert!(point_position_is_valid(1));
    assert!(point_position_is_valid(80));
    assert!(!point_position_is_valid(81));
}
