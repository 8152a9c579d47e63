//! The byte-width lattice: which widths are representable as which.
//!
//! `Const<N>: GreaterEqual<M>` holds exactly for `1 <= M <= N <= 32`. The
//! relation lives in the type system only; no value of these types carries
//! data. Every impl proves that its pair really is ordered, so a bound
//! `Const<N>: GreaterEqual<M>` is a machine-checked witness of `M <= N`.

use vstd::prelude::*;

verus! {

/// A byte width lifted to the type level.
#[non_exhaustive]
pub struct Const<const N: u8>;

/// The number that a type-level width stands for.
pub trait Width {
    spec fn width() -> int;
}

impl<const N: u8> Width for Const<N> {
    open spec fn width() -> int {
        N as int
    }
}

/// A value `narrow` bytes wide is representable in `wide` bytes: both are
/// widths of the machine, between 1 and 32 bytes, and `wide` is not the
/// smaller one.
pub open spec fn representable_as(narrow: int, wide: int) -> bool {
    1 <= narrow <= wide <= 32
}

/// `representable_as` is a partial order on the widths 1 to 32: reflexive,
/// transitive and antisymmetric.
pub proof fn lemma_representable_is_partial_order(a: int, b: int, c: int)
    ensures
        1 <= a <= 32 ==> representable_as(a, a),
        representable_as(a, b) && representable_as(b, c) ==> representable_as(a, c),
        representable_as(a, b) && representable_as(b, a) ==> a == b,
{
}

/// `Self: GreaterEqual<N>` says that a value `N` bytes wide is representable
/// in `Self`'s width.
pub trait GreaterEqual<const N: u8>: Width {
    /// The bound is a proof of the order it is named after.
    proof fn representable()
        ensures
            representable_as(N as int, Self::width()),
    ;
}

impl GreaterEqual<1> for Const<1> { proof fn representable() {} }
impl GreaterEqual<1> for Const<2> { proof fn representable() {} }
impl GreaterEqual<1> for Const<3> { proof fn representable() {} }
impl GreaterEqual<1> for Const<4> { proof fn representable() {} }
impl GreaterEqual<1> for Const<5> { proof fn representable() {} }
impl GreaterEqual<1> for Const<6> { proof fn representable() {} }
impl GreaterEqual<1> for Const<7> { proof fn representable() {} }
impl GreaterEqual<1> for Const<8> { proof fn representable() {} }
impl GreaterEqual<1> for Const<9> { proof fn representable() {} }
impl GreaterEqual<1> for Const<10> { proof fn representable() {} }
impl GreaterEqual<1> for Const<11> { proof fn representable() {} }
impl GreaterEqual<1> for Const<12> { proof fn representable() {} }
impl GreaterEqual<1> for Const<13> { proof fn representable() {} }
impl GreaterEqual<1> for Const<14> { proof fn representable() {} }
impl GreaterEqual<1> for Const<15> { proof fn representable() {} }
impl GreaterEqual<1> for Const<16> { proof fn representable() {} }
impl GreaterEqual<1> for Const<17> { proof fn representable() {} }
impl GreaterEqual<1> for Const<18> { proof fn representable() {} }
impl GreaterEqual<1> for Const<19> { proof fn representable() {} }
impl GreaterEqual<1> for Const<20> { proof fn representable() {} }
impl GreaterEqual<1> for Const<21> { proof fn representable() {} }
impl GreaterEqual<1> for Const<22> { proof fn representable() {} }
impl GreaterEqual<1> for Const<23> { proof fn representable() {} }
impl GreaterEqual<1> for Const<24> { proof fn representable() {} }
impl GreaterEqual<1> for Const<25> { proof fn representable() {} }
impl GreaterEqual<1> for Const<26> { proof fn representable() {} }
impl GreaterEqual<1> for Const<27> { proof fn representable() {} }
impl GreaterEqual<1> for Const<28> { proof fn representable() {} }
impl GreaterEqual<1> for Const<29> { proof fn representable() {} }
impl GreaterEqual<1> for Const<30> { proof fn representable() {} }
impl GreaterEqual<1> for Const<31> { proof fn representable() {} }
impl GreaterEqual<1> for Const<32> { proof fn representable() {} }

impl GreaterEqual<2> for Const<2> { proof fn representable() {} }
impl GreaterEqual<2> for Const<3> { proof fn representable() {} }
impl GreaterEqual<2> for Const<4> { proof fn representable() {} }
impl GreaterEqual<2> for Const<5> { proof fn representable() {} }
impl GreaterEqual<2> for Const<6> { proof fn representable() {} }
impl GreaterEqual<2> for Const<7> { proof fn representable() {} }
impl GreaterEqual<2> for Const<8> { proof fn representable() {} }
impl GreaterEqual<2> for Const<9> { proof fn representable() {} }
impl GreaterEqual<2> for Const<10> { proof fn representable() {} }
impl GreaterEqual<2> for Const<11> { proof fn representable() {} }
impl GreaterEqual<2> for Const<12> { proof fn representable() {} }
impl GreaterEqual<2> for Const<13> { proof fn representable() {} }
impl GreaterEqual<2> for Const<14> { proof fn representable() {} }
impl GreaterEqual<2> for Const<15> { proof fn representable() {} }
impl GreaterEqual<2> for Const<16> { proof fn representable() {} }
impl GreaterEqual<2> for Const<17> { proof fn representable() {} }
impl GreaterEqual<2> for Const<18> { proof fn representable() {} }
impl GreaterEqual<2> for Const<19> { proof fn representable() {} }
impl GreaterEqual<2> for Const<20> { proof fn representable() {} }
impl GreaterEqual<2> for Const<21> { proof fn representable() {} }
impl GreaterEqual<2> for Const<22> { proof fn representable() {} }
impl GreaterEqual<2> for Const<23> { proof fn representable() {} }
impl GreaterEqual<2> for Const<24> { proof fn representable() {} }
impl GreaterEqual<2> for Const<25> { proof fn representable() {} }
impl GreaterEqual<2> for Const<26> { proof fn representable() {} }
impl GreaterEqual<2> for Const<27> { proof fn representable() {} }
impl GreaterEqual<2> for Const<28> { proof fn representable() {} }
impl GreaterEqual<2> for Const<29> { proof fn representable() {} }
impl GreaterEqual<2> for Const<30> { proof fn representable() {} }
impl GreaterEqual<2> for Const<31> { proof fn representable() {} }
impl GreaterEqual<2> for Const<32> { proof fn representable() {} }

impl GreaterEqual<3> for Const<3> { proof fn representable() {} }
impl GreaterEqual<3> for Const<4> { proof fn representable() {} }
impl GreaterEqual<3> for Const<5> { proof fn representable() {} }
impl GreaterEqual<3> for Const<6> { proof fn representable() {} }
impl GreaterEqual<3> for Const<7> { proof fn representable() {} }
impl GreaterEqual<3> for Const<8> { proof fn representable() {} }
impl GreaterEqual<3> for Const<9> { proof fn representable() {} }
impl GreaterEqual<3> for Const<10> { proof fn representable() {} }
impl GreaterEqual<3> for Const<11> { proof fn representable() {} }
impl GreaterEqual<3> for Const<12> { proof fn representable() {} }
impl GreaterEqual<3> for Const<13> { proof fn representable() {} }
impl GreaterEqual<3> for Const<14> { proof fn representable() {} }
impl GreaterEqual<3> for Const<15> { proof fn representable() {} }
impl GreaterEqual<3> for Const<16> { proof fn representable() {} }
impl GreaterEqual<3> for Const<17> { proof fn representable() {} }
impl GreaterEqual<3> for Const<18> { proof fn representable() {} }
impl GreaterEqual<3> for Const<19> { proof fn representable() {} }
impl GreaterEqual<3> for Const<20> { proof fn representable() {} }
impl GreaterEqual<3> for Const<21> { proof fn representable() {} }
impl GreaterEqual<3> for Const<22> { proof fn representable() {} }
impl GreaterEqual<3> for Const<23> { proof fn representable() {} }
impl GreaterEqual<3> for Const<24> { proof fn representable() {} }
impl GreaterEqual<3> for Const<25> { proof fn representable() {} }
impl GreaterEqual<3> for Const<26> { proof fn representable() {} }
impl GreaterEqual<3> for Const<27> { proof fn representable() {} }
impl GreaterEqual<3> for Const<28> { proof fn representable() {} }
impl GreaterEqual<3> for Const<29> { proof fn representable() {} }
impl GreaterEqual<3> for Const<30> { proof fn representable() {} }
impl GreaterEqual<3> for Const<31> { proof fn representable() {} }
impl GreaterEqual<3> for Const<32> { proof fn representable() {} }

impl GreaterEqual<4> for Const<4> { proof fn representable() {} }
impl GreaterEqual<4> for Const<5> { proof fn representable() {} }
impl GreaterEqual<4> for Const<6> { proof fn representable() {} }
impl GreaterEqual<4> for Const<7> { proof fn representable() {} }
impl GreaterEqual<4> for Const<8> { proof fn representable() {} }
impl GreaterEqual<4> for Const<9> { proof fn representable() {} }
impl GreaterEqual<4> for Const<10> { proof fn representable() {} }
impl GreaterEqual<4> for Const<11> { proof fn representable() {} }
impl GreaterEqual<4> for Const<12> { proof fn representable() {} }
impl GreaterEqual<4> for Const<13> { proof fn representable() {} }
impl GreaterEqual<4> for Const<14> { proof fn representable() {} }
impl GreaterEqual<4> for Const<15> { proof fn representable() {} }
impl GreaterEqual<4> for Const<16> { proof fn representable() {} }
impl GreaterEqual<4> for Const<17> { proof fn representable() {} }
impl GreaterEqual<4> for Const<18> { proof fn representable() {} }
impl GreaterEqual<4> for Const<19> { proof fn representable() {} }
impl GreaterEqual<4> for Const<20> { proof fn representable() {} }
impl GreaterEqual<4> for Const<21> { proof fn representable() {} }
impl GreaterEqual<4> for Const<22> { proof fn representable() {} }
impl GreaterEqual<4> for Const<23> { proof fn representable() {} }
impl GreaterEqual<4> for Const<24> { proof fn representable() {} }
impl GreaterEqual<4> for Const<25> { proof fn representable() {} }
impl GreaterEqual<4> for Const<26> { proof fn representable() {} }
impl GreaterEqual<4> for Const<27> { proof fn representable() {} }
impl GreaterEqual<4> for Const<28> { proof fn representable() {} }
impl GreaterEqual<4> for Const<29> { proof fn representable() {} }
impl GreaterEqual<4> for Const<30> { proof fn representable() {} }
impl GreaterEqual<4> for Const<31> { proof fn representable() {} }
impl GreaterEqual<4> for Const<32> { proof fn representable() {} }

impl GreaterEqual<5> for Const<5> { proof fn representable() {} }
impl GreaterEqual<5> for Const<6> { proof fn representable() {} }
impl GreaterEqual<5> for Const<7> { proof fn representable() {} }
impl GreaterEqual<5> for Const<8> { proof fn representable() {} }
impl GreaterEqual<5> for Const<9> { proof fn representable() {} }
impl GreaterEqual<5> for Const<10> { proof fn representable() {} }
impl GreaterEqual<5> for Const<11> { proof fn representable() {} }
impl GreaterEqual<5> for Const<12> { proof fn representable() {} }
impl GreaterEqual<5> for Const<13> { proof fn representable() {} }
impl GreaterEqual<5> for Const<14> { proof fn representable() {} }
impl GreaterEqual<5> for Const<15> { proof fn representable() {} }
impl GreaterEqual<5> for Const<16> { proof fn representable() {} }
impl GreaterEqual<5> for Const<17> { proof fn representable() {} }
impl GreaterEqual<5> for Const<18> { proof fn representable() {} }
impl GreaterEqual<5> for Const<19> { proof fn representable() {} }
impl GreaterEqual<5> for Const<20> { proof fn representable() {} }
impl GreaterEqual<5> for Const<21> { proof fn representable() {} }
impl GreaterEqual<5> for Const<22> { proof fn representable() {} }
impl GreaterEqual<5> for Const<23> { proof fn representable() {} }
impl GreaterEqual<5> for Const<24> { proof fn representable() {} }
impl GreaterEqual<5> for Const<25> { proof fn representable() {} }
impl GreaterEqual<5> for Const<26> { proof fn representable() {} }
impl GreaterEqual<5> for Const<27> { proof fn representable() {} }
impl GreaterEqual<5> for Const<28> { proof fn representable() {} }
impl GreaterEqual<5> for Const<29> { proof fn representable() {} }
impl GreaterEqual<5> for Const<30> { proof fn representable() {} }
impl GreaterEqual<5> for Const<31> { proof fn representable() {} }
impl GreaterEqual<5> for Const<32> { proof fn representable() {} }

impl GreaterEqual<6> for Const<6> { proof fn representable() {} }
impl GreaterEqual<6> for Const<7> { proof fn representable() {} }
impl GreaterEqual<6> for Const<8> { proof fn representable() {} }
impl GreaterEqual<6> for Const<9> { proof fn representable() {} }
impl GreaterEqual<6> for Const<10> { proof fn representable() {} }
impl GreaterEqual<6> for Const<11> { proof fn representable() {} }
impl GreaterEqual<6> for Const<12> { proof fn representable() {} }
impl GreaterEqual<6> for Const<13> { proof fn representable() {} }
impl GreaterEqual<6> for Const<14> { proof fn representable() {} }
impl GreaterEqual<6> for Const<15> { proof fn representable() {} }
impl GreaterEqual<6> for Const<16> { proof fn representable() {} }
impl GreaterEqual<6> for Const<17> { proof fn representable() {} }
impl GreaterEqual<6> for Const<18> { proof fn representable() {} }
impl GreaterEqual<6> for Const<19> { proof fn representable() {} }
impl GreaterEqual<6> for Const<20> { proof fn representable() {} }
impl GreaterEqual<6> for Const<21> { proof fn representable() {} }
impl GreaterEqual<6> for Const<22> { proof fn representable() {} }
impl GreaterEqual<6> for Const<23> { proof fn representable() {} }
impl GreaterEqual<6> for Const<24> { proof fn representable() {} }
impl GreaterEqual<6> for Const<25> { proof fn representable() {} }
impl GreaterEqual<6> for Const<26> { proof fn representable() {} }
impl GreaterEqual<6> for Const<27> { proof fn representable() {} }
impl GreaterEqual<6> for Const<28> { proof fn representable() {} }
impl GreaterEqual<6> for Const<29> { proof fn representable() {} }
impl GreaterEqual<6> for Const<30> { proof fn representable() {} }
impl GreaterEqual<6> for Const<31> { proof fn representable() {} }
impl GreaterEqual<6> for Const<32> { proof fn representable() {} }

impl GreaterEqual<7> for Const<7> { proof fn representable() {} }
impl GreaterEqual<7> for Const<8> { proof fn representable() {} }
impl GreaterEqual<7> for Const<9> { proof fn representable() {} }
impl GreaterEqual<7> for Const<10> { proof fn representable() {} }
impl GreaterEqual<7> for Const<11> { proof fn representable() {} }
impl GreaterEqual<7> for Const<12> { proof fn representable() {} }
impl GreaterEqual<7> for Const<13> { proof fn representable() {} }
impl GreaterEqual<7> for Const<14> { proof fn representable() {} }
impl GreaterEqual<7> for Const<15> { proof fn representable() {} }
impl GreaterEqual<7> for Const<16> { proof fn representable() {} }
impl GreaterEqual<7> for Const<17> { proof fn representable() {} }
impl GreaterEqual<7> for Const<18> { proof fn representable() {} }
impl GreaterEqual<7> for Const<19> { proof fn representable() {} }
impl GreaterEqual<7> for Const<20> { proof fn representable() {} }
impl GreaterEqual<7> for Const<21> { proof fn representable() {} }
impl GreaterEqual<7> for Const<22> { proof fn representable() {} }
impl GreaterEqual<7> for Const<23> { proof fn representable() {} }
impl GreaterEqual<7> for Const<24> { proof fn representable() {} }
impl GreaterEqual<7> for Const<25> { proof fn representable() {} }
impl GreaterEqual<7> for Const<26> { proof fn representable() {} }
impl GreaterEqual<7> for Const<27> { proof fn representable() {} }
impl GreaterEqual<7> for Const<28> { proof fn representable() {} }
impl GreaterEqual<7> for Const<29> { proof fn representable() {} }
impl GreaterEqual<7> for Const<30> { proof fn representable() {} }
impl GreaterEqual<7> for Const<31> { proof fn representable() {} }
impl GreaterEqual<7> for Const<32> { proof fn representable() {} }

impl GreaterEqual<8> for Const<8> { proof fn representable() {} }
impl GreaterEqual<8> for Const<9> { proof fn representable() {} }
impl GreaterEqual<8> for Const<10> { proof fn representable() {} }
impl GreaterEqual<8> for Const<11> { proof fn representable() {} }
impl GreaterEqual<8> for Const<12> { proof fn representable() {} }
impl GreaterEqual<8> for Const<13> { proof fn representable() {} }
impl GreaterEqual<8> for Const<14> { proof fn representable() {} }
impl GreaterEqual<8> for Const<15> { proof fn representable() {} }
impl GreaterEqual<8> for Const<16> { proof fn representable() {} }
impl GreaterEqual<8> for Const<17> { proof fn representable() {} }
impl GreaterEqual<8> for Const<18> { proof fn representable() {} }
impl GreaterEqual<8> for Const<19> { proof fn representable() {} }
impl GreaterEqual<8> for Const<20> { proof fn representable() {} }
impl GreaterEqual<8> for Const<21> { proof fn representable() {} }
impl GreaterEqual<8> for Const<22> { proof fn representable() {} }
impl GreaterEqual<8> for Const<23> { proof fn representable() {} }
impl GreaterEqual<8> for Const<24> { proof fn representable() {} }
impl GreaterEqual<8> for Const<25> { proof fn representable() {} }
impl GreaterEqual<8> for Const<26> { proof fn representable() {} }
impl GreaterEqual<8> for Const<27> { proof fn representable() {} }
impl GreaterEqual<8> for Const<28> { proof fn representable() {} }
impl GreaterEqual<8> for Const<29> { proof fn representable() {} }
impl GreaterEqual<8> for Const<30> { proof fn representable() {} }
impl GreaterEqual<8> for Const<31> { proof fn representable() {} }
impl GreaterEqual<8> for Const<32> { proof fn representable() {} }

impl GreaterEqual<9> for Const<9> { proof fn representable() {} }
impl GreaterEqual<9> for Const<10> { proof fn representable() {} }
impl GreaterEqual<9> for Const<11> { proof fn representable() {} }
impl GreaterEqual<9> for Const<12> { proof fn representable() {} }
impl GreaterEqual<9> for Const<13> { proof fn representable() {} }
impl GreaterEqual<9> for Const<14> { proof fn representable() {} }
impl GreaterEqual<9> for Const<15> { proof fn representable() {} }
impl GreaterEqual<9> for Const<16> { proof fn representable() {} }
impl GreaterEqual<9> for Const<17> { proof fn representable() {} }
impl GreaterEqual<9> for Const<18> { proof fn representable() {} }
impl GreaterEqual<9> for Const<19> { proof fn representable() {} }
impl GreaterEqual<9> for Const<20> { proof fn representable() {} }
impl GreaterEqual<9> for Const<21> { proof fn representable() {} }
impl GreaterEqual<9> for Const<22> { proof fn representable() {} }
impl GreaterEqual<9> for Const<23> { proof fn representable() {} }
impl GreaterEqual<9> for Const<24> { proof fn representable() {} }
impl GreaterEqual<9> for Const<25> { proof fn representable() {} }
impl GreaterEqual<9> for Const<26> { proof fn representable() {} }
impl GreaterEqual<9> for Const<27> { proof fn representable() {} }
impl GreaterEqual<9> for Const<28> { proof fn representable() {} }
impl GreaterEqual<9> for Const<29> { proof fn representable() {} }
impl GreaterEqual<9> for Const<30> { proof fn representable() {} }
impl GreaterEqual<9> for Const<31> { proof fn representable() {} }
impl GreaterEqual<9> for Const<32> { proof fn representable() {} }

impl GreaterEqual<10> for Const<10> { proof fn representable() {} }
impl GreaterEqual<10> for Const<11> { proof fn representable() {} }
impl GreaterEqual<10> for Const<12> { proof fn representable() {} }
impl GreaterEqual<10> for Const<13> { proof fn representable() {} }
impl GreaterEqual<10> for Const<14> { proof fn representable() {} }
impl GreaterEqual<10> for Const<15> { proof fn representable() {} }
impl GreaterEqual<10> for Const<16> { proof fn representable() {} }
impl GreaterEqual<10> for Const<17> { proof fn representable() {} }
impl GreaterEqual<10> for Const<18> { proof fn representable() {} }
impl GreaterEqual<10> for Const<19> { proof fn representable() {} }
impl GreaterEqual<10> for Const<20> { proof fn representable() {} }
impl GreaterEqual<10> for Const<21> { proof fn representable() {} }
impl GreaterEqual<10> for Const<22> { proof fn representable() {} }
impl GreaterEqual<10> for Const<23> { proof fn representable() {} }
impl GreaterEqual<10> for Const<24> { proof fn representable() {} }
impl GreaterEqual<10> for Const<25> { proof fn representable() {} }
impl GreaterEqual<10> for Const<26> { proof fn representable() {} }
impl GreaterEqual<10> for Const<27> { proof fn representable() {} }
impl GreaterEqual<10> for Const<28> { proof fn representable() {} }
impl GreaterEqual<10> for Const<29> { proof fn representable() {} }
impl GreaterEqual<10> for Const<30> { proof fn representable() {} }
impl GreaterEqual<10> for Const<31> { proof fn representable() {} }
impl GreaterEqual<10> for Const<32> { proof fn representable() {} }

impl GreaterEqual<11> for Const<11> { proof fn representable() {} }
impl GreaterEqual<11> for Const<12> { proof fn representable() {} }
impl GreaterEqual<11> for Const<13> { proof fn representable() {} }
impl GreaterEqual<11> for Const<14> { proof fn representable() {} }
impl GreaterEqual<11> for Const<15> { proof fn representable() {} }
impl GreaterEqual<11> for Const<16> { proof fn representable() {} }
impl GreaterEqual<11> for Const<17> { proof fn representable() {} }
impl GreaterEqual<11> for Const<18> { proof fn representable() {} }
impl GreaterEqual<11> for Const<19> { proof fn representable() {} }
impl GreaterEqual<11> for Const<20> { proof fn representable() {} }
impl GreaterEqual<11> for Const<21> { proof fn representable() {} }
impl GreaterEqual<11> for Const<22> { proof fn representable() {} }
impl GreaterEqual<11> for Const<23> { proof fn representable() {} }
impl GreaterEqual<11> for Const<24> { proof fn representable() {} }
impl GreaterEqual<11> for Const<25> { proof fn representable() {} }
impl GreaterEqual<11> for Const<26> { proof fn representable() {} }
impl GreaterEqual<11> for Const<27> { proof fn representable() {} }
impl GreaterEqual<11> for Const<28> { proof fn representable() {} }
impl GreaterEqual<11> for Const<29> { proof fn representable() {} }
impl GreaterEqual<11> for Const<30> { proof fn representable() {} }
impl GreaterEqual<11> for Const<31> { proof fn representable() {} }
impl GreaterEqual<11> for Const<32> { proof fn representable() {} }

impl GreaterEqual<12> for Const<12> { proof fn representable() {} }
impl GreaterEqual<12> for Const<13> { proof fn representable() {} }
impl GreaterEqual<12> for Const<14> { proof fn representable() {} }
impl GreaterEqual<12> for Const<15> { proof fn representable() {} }
impl GreaterEqual<12> for Const<16> { proof fn representable() {} }
impl GreaterEqual<12> for Const<17> { proof fn representable() {} }
impl GreaterEqual<12> for Const<18> { proof fn representable() {} }
impl GreaterEqual<12> for Const<19> { proof fn representable() {} }
impl GreaterEqual<12> for Const<20> { proof fn representable() {} }
impl GreaterEqual<12> for Const<21> { proof fn representable() {} }
impl GreaterEqual<12> for Const<22> { proof fn representable() {} }
impl GreaterEqual<12> for Const<23> { proof fn representable() {} }
impl GreaterEqual<12> for Const<24> { proof fn representable() {} }
impl GreaterEqual<12> for Const<25> { proof fn representable() {} }
impl GreaterEqual<12> for Const<26> { proof fn representable() {} }
impl GreaterEqual<12> for Const<27> { proof fn representable() {} }
impl GreaterEqual<12> for Const<28> { proof fn representable() {} }
impl GreaterEqual<12> for Const<29> { proof fn representable() {} }
impl GreaterEqual<12> for Const<30> { proof fn representable() {} }
impl GreaterEqual<12> for Const<31> { proof fn representable() {} }
impl GreaterEqual<12> for Const<32> { proof fn representable() {} }

impl GreaterEqual<13> for Const<13> { proof fn representable() {} }
impl GreaterEqual<13> for Const<14> { proof fn representable() {} }
impl GreaterEqual<13> for Const<15> { proof fn representable() {} }
impl GreaterEqual<13> for Const<16> { proof fn representable() {} }
impl GreaterEqual<13> for Const<17> { proof fn representable() {} }
impl GreaterEqual<13> for Const<18> { proof fn representable() {} }
impl GreaterEqual<13> for Const<19> { proof fn representable() {} }
impl GreaterEqual<13> for Const<20> { proof fn representable() {} }
impl GreaterEqual<13> for Const<21> { proof fn representable() {} }
impl GreaterEqual<13> for Const<22> { proof fn representable() {} }
impl GreaterEqual<13> for Const<23> { proof fn representable() {} }
impl GreaterEqual<13> for Const<24> { proof fn representable() {} }
impl GreaterEqual<13> for Const<25> { proof fn representable() {} }
impl GreaterEqual<13> for Const<26> { proof fn representable() {} }
impl GreaterEqual<13> for Const<27> { proof fn representable() {} }
impl GreaterEqual<13> for Const<28> { proof fn representable() {} }
impl GreaterEqual<13> for Const<29> { proof fn representable() {} }
impl GreaterEqual<13> for Const<30> { proof fn representable() {} }
impl GreaterEqual<13> for Const<31> { proof fn representable() {} }
impl GreaterEqual<13> for Const<32> { proof fn representable() {} }

impl GreaterEqual<14> for Const<14> { proof fn representable() {} }
impl GreaterEqual<14> for Const<15> { proof fn representable() {} }
impl GreaterEqual<14> for Const<16> { proof fn representable() {} }
impl GreaterEqual<14> for Const<17> { proof fn representable() {} }
impl GreaterEqual<14> for Const<18> { proof fn representable() {} }
impl GreaterEqual<14> for Const<19> { proof fn representable() {} }
impl GreaterEqual<14> for Const<20> { proof fn representable() {} }
impl GreaterEqual<14> for Const<21> { proof fn representable() {} }
impl GreaterEqual<14> for Const<22> { proof fn representable() {} }
impl GreaterEqual<14> for Const<23> { proof fn representable() {} }
impl GreaterEqual<14> for Const<24> { proof fn representable() {} }
impl GreaterEqual<14> for Const<25> { proof fn representable() {} }
impl GreaterEqual<14> for Const<26> { proof fn representable() {} }
impl GreaterEqual<14> for Const<27> { proof fn representable() {} }
impl GreaterEqual<14> for Const<28> { proof fn representable() {} }
impl GreaterEqual<14> for Const<29> { proof fn representable() {} }
impl GreaterEqual<14> for Const<30> { proof fn representable() {} }
impl GreaterEqual<14> for Const<31> { proof fn representable() {} }
impl GreaterEqual<14> for Const<32> { proof fn representable() {} }

impl GreaterEqual<15> for Const<15> { proof fn representable() {} }
impl GreaterEqual<15> for Const<16> { proof fn representable() {} }
impl GreaterEqual<15> for Const<17> { proof fn representable() {} }
impl GreaterEqual<15> for Const<18> { proof fn representable() {} }
impl GreaterEqual<15> for Const<19> { proof fn representable() {} }
impl GreaterEqual<15> for Const<20> { proof fn representable() {} }
impl GreaterEqual<15> for Const<21> { proof fn representable() {} }
impl GreaterEqual<15> for Const<22> { proof fn representable() {} }
impl GreaterEqual<15> for Const<23> { proof fn representable() {} }
impl GreaterEqual<15> for Const<24> { proof fn representable() {} }
impl GreaterEqual<15> for Const<25> { proof fn representable() {} }
impl GreaterEqual<15> for Const<26> { proof fn representable() {} }
impl GreaterEqual<15> for Const<27> { proof fn representable() {} }
impl GreaterEqual<15> for Const<28> { proof fn representable() {} }
impl GreaterEqual<15> for Const<29> { proof fn representable() {} }
impl GreaterEqual<15> for Const<30> { proof fn representable() {} }
impl GreaterEqual<15> for Const<31> { proof fn representable() {} }
impl GreaterEqual<15> for Const<32> { proof fn representable() {} }

impl GreaterEqual<16> for Const<16> { proof fn representable() {} }
impl GreaterEqual<16> for Const<17> { proof fn representable() {} }
impl GreaterEqual<16> for Const<18> { proof fn representable() {} }
impl GreaterEqual<16> for Const<19> { proof fn representable() {} }
impl GreaterEqual<16> for Const<20> { proof fn representable() {} }
impl GreaterEqual<16> for Const<21> { proof fn representable() {} }
impl GreaterEqual<16> for Const<22> { proof fn representable() {} }
impl GreaterEqual<16> for Const<23> { proof fn representable() {} }
impl GreaterEqual<16> for Const<24> { proof fn representable() {} }
impl GreaterEqual<16> for Const<25> { proof fn representable() {} }
impl GreaterEqual<16> for Const<26> { proof fn representable() {} }
impl GreaterEqual<16> for Const<27> { proof fn representable() {} }
impl GreaterEqual<16> for Const<28> { proof fn representable() {} }
impl GreaterEqual<16> for Const<29> { proof fn representable() {} }
impl GreaterEqual<16> for Const<30> { proof fn representable() {} }
impl GreaterEqual<16> for Const<31> { proof fn representable() {} }
impl GreaterEqual<16> for Const<32> { proof fn representable() {} }

impl GreaterEqual<17> for Const<17> { proof fn representable() {} }
impl GreaterEqual<17> for Const<18> { proof fn representable() {} }
impl GreaterEqual<17> for Const<19> { proof fn representable() {} }
impl GreaterEqual<17> for Const<20> { proof fn representable() {} }
impl GreaterEqual<17> for Const<21> { proof fn representable() {} }
impl GreaterEqual<17> for Const<22> { proof fn representable() {} }
impl GreaterEqual<17> for Const<23> { proof fn representable() {} }
impl GreaterEqual<17> for Const<24> { proof fn representable() {} }
impl GreaterEqual<17> for Const<25> { proof fn representable() {} }
impl GreaterEqual<17> for Const<26> { proof fn representable() {} }
impl GreaterEqual<17> for Const<27> { proof fn representable() {} }
impl GreaterEqual<17> for Const<28> { proof fn representable() {} }
impl GreaterEqual<17> for Const<29> { proof fn representable() {} }
impl GreaterEqual<17> for Const<30> { proof fn representable() {} }
impl GreaterEqual<17> for Const<31> { proof fn representable() {} }
impl GreaterEqual<17> for Const<32> { proof fn representable() {} }

impl GreaterEqual<18> for Const<18> { proof fn representable() {} }
impl GreaterEqual<18> for Const<19> { proof fn representable() {} }
impl GreaterEqual<18> for Const<20> { proof fn representable() {} }
impl GreaterEqual<18> for Const<21> { proof fn representable() {} }
impl GreaterEqual<18> for Const<22> { proof fn representable() {} }
impl GreaterEqual<18> for Const<23> { proof fn representable() {} }
impl GreaterEqual<18> for Const<24> { proof fn representable() {} }
impl GreaterEqual<18> for Const<25> { proof fn representable() {} }
impl GreaterEqual<18> for Const<26> { proof fn representable() {} }
impl GreaterEqual<18> for Const<27> { proof fn representable() {} }
impl GreaterEqual<18> for Const<28> { proof fn representable() {} }
impl GreaterEqual<18> for Const<29> { proof fn representable() {} }
impl GreaterEqual<18> for Const<30> { proof fn representable() {} }
impl GreaterEqual<18> for Const<31> { proof fn representable() {} }
impl GreaterEqual<18> for Const<32> { proof fn representable() {} }

impl GreaterEqual<19> for Const<19> { proof fn representable() {} }
impl GreaterEqual<19> for Const<20> { proof fn representable() {} }
impl GreaterEqual<19> for Const<21> { proof fn representable() {} }
impl GreaterEqual<19> for Const<22> { proof fn representable() {} }
impl GreaterEqual<19> for Const<23> { proof fn representable() {} }
impl GreaterEqual<19> for Const<24> { proof fn representable() {} }
impl GreaterEqual<19> for Const<25> { proof fn representable() {} }
impl GreaterEqual<19> for Const<26> { proof fn representable() {} }
impl GreaterEqual<19> for Const<27> { proof fn representable() {} }
impl GreaterEqual<19> for Const<28> { proof fn representable() {} }
impl GreaterEqual<19> for Const<29> { proof fn representable() {} }
impl GreaterEqual<19> for Const<30> { proof fn representable() {} }
impl GreaterEqual<19> for Const<31> { proof fn representable() {} }
impl GreaterEqual<19> for Const<32> { proof fn representable() {} }

impl GreaterEqual<20> for Const<20> { proof fn representable() {} }
impl GreaterEqual<20> for Const<21> { proof fn representable() {} }
impl GreaterEqual<20> for Const<22> { proof fn representable() {} }
impl GreaterEqual<20> for Const<23> { proof fn representable() {} }
impl GreaterEqual<20> for Const<24> { proof fn representable() {} }
impl GreaterEqual<20> for Const<25> { proof fn representable() {} }
impl GreaterEqual<20> for Const<26> { proof fn representable() {} }
impl GreaterEqual<20> for Const<27> { proof fn representable() {} }
impl GreaterEqual<20> for Const<28> { proof fn representable() {} }
impl GreaterEqual<20> for Const<29> { proof fn representable() {} }
impl GreaterEqual<20> for Const<30> { proof fn representable() {} }
impl GreaterEqual<20> for Const<31> { proof fn representable() {} }
impl GreaterEqual<20> for Const<32> { proof fn representable() {} }

impl GreaterEqual<21> for Const<21> { proof fn representable() {} }
impl GreaterEqual<21> for Const<22> { proof fn representable() {} }
impl GreaterEqual<21> for Const<23> { proof fn representable() {} }
impl GreaterEqual<21> for Const<24> { proof fn representable() {} }
impl GreaterEqual<21> for Const<25> { proof fn representable() {} }
impl GreaterEqual<21> for Const<26> { proof fn representable() {} }
impl GreaterEqual<21> for Const<27> { proof fn representable() {} }
impl GreaterEqual<21> for Const<28> { proof fn representable() {} }
impl GreaterEqual<21> for Const<29> { proof fn representable() {} }
impl GreaterEqual<21> for Const<30> { proof fn representable() {} }
impl GreaterEqual<21> for Const<31> { proof fn representable() {} }
impl GreaterEqual<21> for Const<32> { proof fn representable() {} }

impl GreaterEqual<22> for Const<22> { proof fn representable() {} }
impl GreaterEqual<22> for Const<23> { proof fn representable() {} }
impl GreaterEqual<22> for Const<24> { proof fn representable() {} }
impl GreaterEqual<22> for Const<25> { proof fn representable() {} }
impl GreaterEqual<22> for Const<26> { proof fn representable() {} }
impl GreaterEqual<22> for Const<27> { proof fn representable() {} }
impl GreaterEqual<22> for Const<28> { proof fn representable() {} }
impl GreaterEqual<22> for Const<29> { proof fn representable() {} }
impl GreaterEqual<22> for Const<30> { proof fn representable() {} }
impl GreaterEqual<22> for Const<31> { proof fn representable() {} }
impl GreaterEqual<22> for Const<32> { proof fn representable() {} }

impl GreaterEqual<23> for Const<23> { proof fn representable() {} }
impl GreaterEqual<23> for Const<24> { proof fn representable() {} }
impl GreaterEqual<23> for Const<25> { proof fn representable() {} }
impl GreaterEqual<23> for Const<26> { proof fn representable() {} }
impl GreaterEqual<23> for Const<27> { proof fn representable() {} }
impl GreaterEqual<23> for Const<28> { proof fn representable() {} }
impl GreaterEqual<23> for Const<29> { proof fn representable() {} }
impl GreaterEqual<23> for Const<30> { proof fn representable() {} }
impl GreaterEqual<23> for Const<31> { proof fn representable() {} }
impl GreaterEqual<23> for Const<32> { proof fn representable() {} }

impl GreaterEqual<24> for Const<24> { proof fn representable() {} }
impl GreaterEqual<24> for Const<25> { proof fn representable() {} }
impl GreaterEqual<24> for Const<26> { proof fn representable() {} }
impl GreaterEqual<24> for Const<27> { proof fn representable() {} }
impl GreaterEqual<24> for Const<28> { proof fn representable() {} }
impl GreaterEqual<24> for Const<29> { proof fn representable() {} }
impl GreaterEqual<24> for Const<30> { proof fn representable() {} }
impl GreaterEqual<24> for Const<31> { proof fn representable() {} }
impl GreaterEqual<24> for Const<32> { proof fn representable() {} }

impl GreaterEqual<25> for Const<25> { proof fn representable() {} }
impl GreaterEqual<25> for Const<26> { proof fn representable() {} }
impl GreaterEqual<25> for Const<27> { proof fn representable() {} }
impl GreaterEqual<25> for Const<28> { proof fn representable() {} }
impl GreaterEqual<25> for Const<29> { proof fn representable() {} }
impl GreaterEqual<25> for Const<30> { proof fn representable() {} }
impl GreaterEqual<25> for Const<31> { proof fn representable() {} }
impl GreaterEqual<25> for Const<32> { proof fn representable() {} }

impl GreaterEqual<26> for Const<26> { proof fn representable() {} }
impl GreaterEqual<26> for Const<27> { proof fn representable() {} }
impl GreaterEqual<26> for Const<28> { proof fn representable() {} }
impl GreaterEqual<26> for Const<29> { proof fn representable() {} }
impl GreaterEqual<26> for Const<30> { proof fn representable() {} }
impl GreaterEqual<26> for Const<31> { proof fn representable() {} }
impl GreaterEqual<26> for Const<32> { proof fn representable() {} }

impl GreaterEqual<27> for Const<27> { proof fn representable() {} }
impl GreaterEqual<27> for Const<28> { proof fn representable() {} }
impl GreaterEqual<27> for Const<29> { proof fn representable() {} }
impl GreaterEqual<27> for Const<30> { proof fn representable() {} }
impl GreaterEqual<27> for Const<31> { proof fn representable() {} }
impl GreaterEqual<27> for Const<32> { proof fn representable() {} }

impl GreaterEqual<28> for Const<28> { proof fn representable() {} }
impl GreaterEqual<28> for Const<29> { proof fn representable() {} }
impl GreaterEqual<28> for Const<30> { proof fn representable() {} }
impl GreaterEqual<28> for Const<31> { proof fn representable() {} }
impl GreaterEqual<28> for Const<32> { proof fn representable() {} }

impl GreaterEqual<29> for Const<29> { proof fn representable() {} }
impl GreaterEqual<29> for Const<30> { proof fn representable() {} }
impl GreaterEqual<29> for Const<31> { proof fn representable() {} }
impl GreaterEqual<29> for Const<32> { proof fn representable() {} }

impl GreaterEqual<30> for Const<30> { proof fn representable() {} }
impl GreaterEqual<30> for Const<31> { proof fn representable() {} }
impl GreaterEqual<30> for Const<32> { proof fn representable() {} }

impl GreaterEqual<31> for Const<31> { proof fn representable() {} }
impl GreaterEqual<31> for Const<32> { proof fn representable() {} }

impl GreaterEqual<32> for Const<32> { proof fn representable() {} }

} // verus!
