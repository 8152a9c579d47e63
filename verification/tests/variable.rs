use evm_ir::ir::variable::{
    AnyVar, BoolVar, IntVar, PointerVar, Type, TypedVar, UIntVar, Var, VarId, VarIdExt,
};
use evm_ir::ir::variable::{BoolType, IntType, PointerType, TypeTag, UIntType};

#[test]
fn new_records_the_static_tag() {
    let b: BoolVar = TypedVar::new(7);
    assert_eq!(b.into_unknown(), Var { id: 7, ty: Type::Bool });
    let u: UIntVar<4> = TypedVar::new(8);
    assert_eq!(u.into_unknown(), Var { id: 8, ty: Type::UInt(4) });
    let i: IntVar<32> = TypedVar::new(9);
    assert_eq!(i.into_unknown(), Var { id: 9, ty: Type::Int(32) });
    let p: PointerVar = TypedVar::new(10);
    assert_eq!(p.into_unknown(), Var { id: 10, ty: Type::Pointer });
}

#[test]
fn markers_name_their_runtime_type() {
    assert_eq!(BoolType::ty(), Type::Bool);
    assert_eq!(UIntType::<1>::ty(), Type::UInt(1));
    assert_eq!(UIntType::<32>::ty(), Type::UInt(32));
    assert_eq!(IntType::<16>::ty(), Type::Int(16));
    assert_eq!(PointerType::ty(), Type::Pointer);
}

#[test]
fn widening_uint_keeps_the_identifier() {
    let narrow: UIntVar<8> = TypedVar::new(42);
    let middle: UIntVar<16> = narrow.into_uint();
    assert_eq!(middle.id(), 42);
    assert_eq!(middle.into_unknown(), Var { id: 42, ty: Type::UInt(16) });
    let wide: UIntVar<32> = middle.into_uint();
    assert_eq!(wide.id(), 42);
    assert_eq!(wide.into_unknown(), Var { id: 42, ty: Type::UInt(32) });
}

#[test]
fn widening_to_the_same_width_is_allowed() {
    let v: UIntVar<32> = TypedVar::new(3);
    let w: UIntVar<32> = v.into_uint();
    assert_eq!(w.into_unknown(), Var { id: 3, ty: Type::UInt(32) });
    let one: UIntVar<1> = TypedVar::new(4);
    let still_one: UIntVar<1> = one.into_uint();
    assert_eq!(still_one.into_unknown(), Var { id: 4, ty: Type::UInt(1) });
}

#[test]
fn widening_from_narrowest_to_widest() {
    let v: UIntVar<1> = TypedVar::new(u64::MAX);
    let w: UIntVar<32> = v.into_uint();
    assert_eq!(w.into_unknown(), Var { id: u64::MAX, ty: Type::UInt(32) });
}

#[test]
fn bool_widens_to_any_uint() {
    let b: BoolVar = TypedVar::new(5);
    let one: UIntVar<1> = b.into_uint();
    assert_eq!(one.into_unknown(), Var { id: 5, ty: Type::UInt(1) });
    let word: UIntVar<32> = b.into_uint();
    assert_eq!(word.into_unknown(), Var { id: 5, ty: Type::UInt(32) });
}

#[test]
fn bool_and_uint_convert_to_pointer() {
    let b: BoolVar = TypedVar::new(11);
    assert_eq!(b.into_pointer().into_unknown(), Var { id: 11, ty: Type::Pointer });
    let u: UIntVar<20> = TypedVar::new(12);
    assert_eq!(u.into_pointer().into_unknown(), Var { id: 12, ty: Type::Pointer });
}

#[test]
fn handles_are_copied_not_moved() {
    let v: UIntVar<32> = TypedVar::new(1);
    let first = v;
    let second = v;
    assert_eq!(first.id(), second.id());
    let cloned = v.clone();
    assert_eq!(cloned.into_unknown(), v.into_unknown());
}

#[test]
fn any_var_views_agree() {
    let v: IntVar<2> = <IntVar<2> as AnyVar>::new(77);
    assert_eq!(v.id(), 77);
    assert_eq!(*v.as_unknown(), Var { id: 77, ty: Type::Int(2) });
    assert_eq!(AnyVar::into_unknown(v), Var { id: 77, ty: Type::Int(2) });
}

#[test]
fn assume_unchecked_wraps_the_identifier() {
    let id: VarId = 9;
    let p: PointerVar = id.assume_unchecked();
    assert_eq!(p.into_unknown(), Var { id: 9, ty: Type::Pointer });
    let u: UIntVar<3> = 10u64.assume_unchecked();
    assert_eq!(u.into_unknown(), Var { id: 10, ty: Type::UInt(3) });
}

#[test]
fn every_machine_width_has_a_handle_type() {
    let narrowest: UIntVar<1> = TypedVar::new(0);
    let widest: IntVar<32> = TypedVar::new(0);
    assert_eq!(narrowest.into_unknown().ty, Type::UInt(1));
    assert_eq!(widest.into_unknown().ty, Type::Int(32));
}
