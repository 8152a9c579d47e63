//! Identifiers, untyped variable records and statically typed handles.
//!
//! A handle is an identifier plus a zero-size marker that fixes its type at
//! compile time. Conversions between handle types change the marker only, and
//! only upward in the width lattice.

use std::marker::PhantomData;
use vstd::prelude::*;

use crate::util::compile_time::{Const, GreaterEqual};

verus! {

/// Names the result of one instruction. Identifiers are issued by a
/// [`Context`](crate::ir::builder::context::Context) in increasing order and
/// never reused.
pub type VarId = u64;

/// The type of a variable as it is recorded at run time. Integers carry
/// their width in bytes.
#[derive(Clone, Copy, PartialEq, Eq, Structural, Debug)]
pub enum Type {
    /// The type of something that holds no value.
    Void,
    Bool,
    UInt(u8),
    Int(u8),
    Pointer,
}

impl Type {
    /// The type is one that the machine has: an integer is between 1 and 32
    /// bytes wide.
    pub open spec fn is_machine_type(self) -> bool {
        match self {
            Type::UInt(width) | Type::Int(width) => 1 <= width <= 32,
            _ => true,
        }
    }
}

/// An identifier together with its recorded type, with no static tag.
#[derive(Clone, Copy, PartialEq, Eq, Structural, Debug)]
pub struct Var {
    pub id: VarId,
    pub ty: Type,
}

/// `var` with its recorded type replaced by `ty`. This is all that a
/// conversion between handle types does to the record behind the handle.
pub open spec fn retagged(var: Var, ty: Type) -> Var {
    Var { id: var.id, ty }
}

/// However many conversions follow one another, the identifier stays what
/// it was, and only the last conversion shows in the type.
pub proof fn lemma_conversions_keep_identifier(var: Var, first: Type, second: Type)
    ensures
        retagged(var, first).id == var.id,
        retagged(retagged(var, first), second).id == var.id,
        retagged(retagged(var, first), second) == retagged(var, second),
{
}

/// Reinterprets a bare identifier as a handle of any type the caller asks for.
pub trait VarIdExt {
    fn assume_unchecked<T: AnyVar>(self) -> (var: T)
        ensures
            var.erased() == (Var { id: self.raw(), ty: T::static_type() }),
    ;

    /// The identifier that `self` is.
    spec fn raw(self) -> VarId;
}

impl VarIdExt for VarId {
    open spec fn raw(self) -> VarId {
        self
    }

    fn assume_unchecked<T: AnyVar>(self) -> (var: T) {
        T::new(self)
    }
}

/// A marker type that stands for one run-time [`Type`].
pub trait TypeTag {
    /// The run-time type that the marker stands for.
    spec fn tag() -> Type;

    fn ty() -> (ty: Type)
        ensures
            ty == Self::tag(),
    ;

    /// Only types that the machine has have a marker.
    proof fn tag_is_machine_type()
        ensures
            Self::tag().is_machine_type(),
    ;
}

#[non_exhaustive]
#[derive(Clone, Copy, Debug)]
pub struct BoolType;

#[non_exhaustive]
#[derive(Clone, Copy, Debug)]
pub struct UIntType<const SIZE: u8>;

#[non_exhaustive]
#[derive(Clone, Copy, Debug)]
pub struct IntType<const SIZE: u8>;

#[non_exhaustive]
#[derive(Clone, Copy, Debug)]
pub struct PointerType;

impl TypeTag for BoolType {
    open spec fn tag() -> Type {
        Type::Bool
    }

    fn ty() -> (ty: Type) {
        Type::Bool
    }

    proof fn tag_is_machine_type() {
    }
}

impl<const SIZE: u8> TypeTag for UIntType<SIZE> where Const<SIZE>: GreaterEqual<1> {
    open spec fn tag() -> Type {
        Type::UInt(SIZE)
    }

    fn ty() -> (ty: Type) {
        Type::UInt(SIZE)
    }

    proof fn tag_is_machine_type() {
        <Const<SIZE> as GreaterEqual<1>>::representable();
    }
}

impl<const SIZE: u8> TypeTag for IntType<SIZE> where Const<SIZE>: GreaterEqual<1> {
    open spec fn tag() -> Type {
        Type::Int(SIZE)
    }

    fn ty() -> (ty: Type) {
        Type::Int(SIZE)
    }

    proof fn tag_is_machine_type() {
        <Const<SIZE> as GreaterEqual<1>>::representable();
    }
}

impl TypeTag for PointerType {
    open spec fn tag() -> Type {
        Type::Pointer
    }

    fn ty() -> (ty: Type) {
        Type::Pointer
    }

    proof fn tag_is_machine_type() {
    }
}

/// A handle whose type is fixed at compile time by the marker `T`.
///
/// The recorded type of the wrapped [`Var`] always equals `T::tag()`.
pub struct TypedVar<T: TypeTag>(Var, PhantomData<T>);

pub type BoolVar = TypedVar<BoolType>;

pub type UIntVar<const SIZE: u8> = TypedVar<UIntType<SIZE>>;

pub type IntVar<const SIZE: u8> = TypedVar<IntType<SIZE>>;

pub type PointerVar = TypedVar<PointerType>;

impl<T: TypeTag> View for TypedVar<T> {
    type V = Var;

    /// The handle with its static tag erased.
    closed spec fn view(&self) -> Var {
        self.0
    }
}

impl<T: TypeTag> Clone for TypedVar<T> {
    fn clone(&self) -> (copy: Self)
        ensures
            copy == *self,
    {
        proof {
            use_type_invariant(self);
        }
        TypedVar(self.0, PhantomData)
    }
}

impl<T: TypeTag> Copy for TypedVar<T> {

}

impl<T: TypeTag> TypedVar<T> {
    #[verifier::type_invariant]
    spec fn tag_matches(self) -> bool {
        self.0.ty == T::tag()
    }

    /// The handle of type `T` for the identifier `id`.
    pub fn new(id: VarId) -> (var: Self)
        ensures
            var@ == (Var { id, ty: T::tag() }),
            var@.ty.is_machine_type(),
    {
        proof {
            T::tag_is_machine_type();
        }
        Self(Var { id, ty: T::ty() }, PhantomData)
    }

    /// Erases the static tag. The record that is left still tells the type.
    pub fn into_unknown(self) -> (var: Var)
        ensures
            var == self@,
            var.ty == T::tag(),
            var.ty.is_machine_type(),
    {
        proof {
            use_type_invariant(&self);
            T::tag_is_machine_type();
        }
        self.0
    }
}

impl BoolVar {
    /// Widens a boolean to an unsigned integer of any machine width.
    pub fn into_uint<const SIZE: u8>(self) -> (wide: UIntVar<SIZE>) where
        Const<SIZE>: GreaterEqual<1>,

        ensures
            wide@ == retagged(self@, Type::UInt(SIZE)),
            1 <= SIZE <= 32,
    {
        proof {
            <Const<SIZE> as GreaterEqual<1>>::representable();
        }
        UIntVar::new(self.0.id)
    }

    pub fn into_pointer(self) -> (pointer: PointerVar)
        ensures
            pointer@ == retagged(self@, Type::Pointer),
    {
        PointerVar::new(self.0.id)
    }
}

impl<const SIZE: u8> UIntVar<SIZE> where Const<SIZE>: GreaterEqual<1> {
    /// Widens an unsigned integer to a width that is at least its own.
    pub fn into_uint<const TARGET_SIZE: u8>(self) -> (wide: UIntVar<TARGET_SIZE>) where
        Const<TARGET_SIZE>: GreaterEqual<SIZE> + GreaterEqual<1>,

        ensures
            wide@ == retagged(self@, Type::UInt(TARGET_SIZE)),
            1 <= SIZE <= TARGET_SIZE <= 32,
    {
        proof {
            <Const<TARGET_SIZE> as GreaterEqual<SIZE>>::representable();
        }
        UIntVar::new(self.0.id)
    }

    pub fn into_pointer(self) -> (pointer: PointerVar)
        ensures
            pointer@ == retagged(self@, Type::Pointer),
    {
        PointerVar::new(self.0.id)
    }
}

/// What every handle type offers, whatever its static tag.
pub trait AnyVar: Sized {
    /// The handle with its static tag erased.
    spec fn erased(&self) -> Var;

    /// The run-time type that every handle of this type records.
    spec fn static_type() -> Type;

    fn new(id: VarId) -> (var: Self)
        ensures
            var.erased() == (Var { id, ty: Self::static_type() }),
    ;

    fn into_unknown(self) -> (var: Var)
        ensures
            var == self.erased(),
            var.ty == Self::static_type(),
    ;

    fn as_unknown(&self) -> (var: &Var)
        ensures
            *var == self.erased(),
            var.ty == Self::static_type(),
    ;

    fn id(&self) -> (id: VarId)
        ensures
            id == self.erased().id,
    {
        self.as_unknown().id
    }
}

impl<T: TypeTag> AnyVar for TypedVar<T> {
    open spec fn erased(&self) -> Var {
        self@
    }

    open spec fn static_type() -> Type {
        T::tag()
    }

    fn new(id: VarId) -> (var: Self) {
        Self::new(id)
    }

    fn into_unknown(self) -> (var: Var) {
        self.into_unknown()
    }

    fn as_unknown(&self) -> (var: &Var) {
        proof {
            use_type_invariant(self);
            assert(self.0.ty == Self::static_type());
        }
        &self.0
    }
}

/// Handles of unsigned integers.
pub trait UIntAnyVar: AnyVar {

}

impl<const SIZE: u8> UIntAnyVar for UIntVar<SIZE> where Const<SIZE>: GreaterEqual<1> {

}

/// Handles of signed integers.
pub trait IntAnyVar: AnyVar {

}

impl<const SIZE: u8> IntAnyVar for IntVar<SIZE> where Const<SIZE>: GreaterEqual<1> {

}

/// Handles of integers of either signedness.
pub trait BothIntAnyVar: AnyVar {

}

impl<const SIZE: u8> BothIntAnyVar for UIntVar<SIZE> where Const<SIZE>: GreaterEqual<1> {

}

impl<const SIZE: u8> BothIntAnyVar for IntVar<SIZE> where Const<SIZE>: GreaterEqual<1> {

}

} // verus!
