use vstd::prelude::*;

verus! {

/// A number type the algebra of this crate can be instantiated with.
///
/// Every operation is a function of its operands: the `*_spec` function of an
/// operation names the value the operation returns, and the contracts of the
/// crate are stated over these names. Nothing else is asked of the arithmetic:
/// it need not be associative, exact or free of rounding. Where a contract
/// needs more (an order that is transitive, say), it states so as a
/// hypothesis over the `*_spec` functions.
///
/// [`crate::fixed::Fixed`] is the scalar this crate ships and verifies. An
/// implementation made outside of the verifier (hardware floating point, for
/// one) has to make sure on its own that each operation returns what its
/// `*_spec` function names.
pub trait Scalar: Copy + Sized {
    /// The additive unit.
    spec fn zero_spec() -> Self;

    /// The multiplicative unit.
    spec fn one_spec() -> Self;

    /// The sum `self + rhs`.
    spec fn add_spec(self, rhs: Self) -> Self;

    /// The difference `self - rhs`.
    spec fn sub_spec(self, rhs: Self) -> Self;

    /// The product `self * rhs`.
    spec fn mul_spec(self, rhs: Self) -> Self;

    /// The quotient `self / rhs`.
    spec fn div_spec(self, rhs: Self) -> Self;

    /// The opposite `-self`.
    spec fn neg_spec(self) -> Self;

    /// The square root of `self`.
    spec fn sqrt_spec(self) -> Self;

    /// Whether `self` is strictly below `rhs`.
    spec fn lt_spec(self, rhs: Self) -> bool;

    /// Whether `self` is below or equal to `rhs`.
    spec fn le_spec(self, rhs: Self) -> bool;

    /// The additive unit.
    fn zero() -> (r: Self)
        ensures
            r == Self::zero_spec(),
    ;

    /// The multiplicative unit.
    fn one() -> (r: Self)
        ensures
            r == Self::one_spec(),
    ;

    /// The sum `self + rhs`.
    fn add(self, rhs: Self) -> (r: Self)
        ensures
            r == self.add_spec(rhs),
    ;

    /// The difference `self - rhs`.
    fn sub(self, rhs: Self) -> (r: Self)
        ensures
            r == self.sub_spec(rhs),
    ;

    /// The product `self * rhs`.
    fn mul(self, rhs: Self) -> (r: Self)
        ensures
            r == self.mul_spec(rhs),
    ;

    /// The quotient `self / rhs`. It gives some answer for every divisor.
    fn div(self, rhs: Self) -> (r: Self)
        ensures
            r == self.div_spec(rhs),
    ;

    /// The opposite `-self`.
    fn neg(self) -> (r: Self)
        ensures
            r == self.neg_spec(),
    ;

    /// The square root of `self`. It gives some answer for every number.
    fn sqrt(self) -> (r: Self)
        ensures
            r == self.sqrt_spec(),
    ;

    /// Whether `self` is strictly below `rhs`.
    fn lt(self, rhs: Self) -> (b: bool)
        ensures
            b == self.lt_spec(rhs),
    ;

    /// Whether `self` is below or equal to `rhs`.
    fn le(self, rhs: Self) -> (b: bool)
        ensures
            b == self.le_spec(rhs),
    ;
}

/// The scalar `1 + 1`.
pub open spec fn two_spec<T: Scalar>() -> T {
    T::one_spec().add_spec(T::one_spec())
}

/// The scalar `(1 + 1) + (1 + 1)`.
pub open spec fn four_spec<T: Scalar>() -> T {
    two_spec::<T>().add_spec(two_spec::<T>())
}

/// Whether `x` compares equal to zero: `x <= 0` and `0 <= x`.
pub open spec fn is_zero_spec<T: Scalar>(x: T) -> bool {
    x.le_spec(T::zero_spec()) && T::zero_spec().le_spec(x)
}

/// Whether `x` is at or above zero: `0 <= x`.
pub open spec fn is_non_negative_spec<T: Scalar>(x: T) -> bool {
    T::zero_spec().le_spec(x)
}

/// The sign `+1` for an even index and `-1` for an odd one.
pub open spec fn polarity_spec<T: Scalar>(index: int) -> T {
    if index % 2 == 0 {
        T::one_spec()
    } else {
        T::one_spec().neg_spec()
    }
}

/// Whether `<` on `T` is a strict order: irreflexive and transitive.
pub open spec fn strict_order<T: Scalar>() -> bool {
    &&& forall|a: T| !(#[trigger] a.lt_spec(a))
    &&& forall|a: T, b: T, c: T|
        #[trigger] a.lt_spec(b) && #[trigger] b.lt_spec(c) ==> a.lt_spec(c)
}

/// The scalar `1 + 1`.
pub fn two<T: Scalar>() -> (r: T)
    ensures
        r == two_spec::<T>(),
{
    T::one().add(T::one())
}

/// The scalar `(1 + 1) + (1 + 1)`.
pub fn four<T: Scalar>() -> (r: T)
    ensures
        r == four_spec::<T>(),
{
    let t: T = two();
    t.add(t)
}

/// Whether `x` compares equal to zero.
pub fn is_zero<T: Scalar>(x: T) -> (b: bool)
    ensures
        b == is_zero_spec(x),
{
    x.le(T::zero()) && T::zero().le(x)
}

/// Whether `x` is at or above zero.
pub fn is_non_negative<T: Scalar>(x: T) -> (b: bool)
    ensures
        b == is_non_negative_spec(x),
{
    T::zero().le(x)
}

/// The sign `+1` for an even index and `-1` for an odd one.
pub fn polarity<T: Scalar>(index: usize) -> (r: T)
    ensures
        r == polarity_spec::<T>(index as int),
{
    if index % 2 == 0 {
        T::one()
    } else {
        T::one().neg()
    }
}

/// A scalar that measures angles. How close the cosine and the sine come
/// to the true ones is the implementation's affair, and so is whether one
/// angle always gives one answer: a contract only says that an answer is
/// one that the scalar gives for the angle.
pub trait Angle: Scalar {
    /// Whether `value` is an answer of the scalar for the cosine of `self`.
    spec fn is_cos_spec(self, value: Self) -> bool;

    /// Whether `value` is an answer of the scalar for the sine of `self`.
    spec fn is_sin_spec(self, value: Self) -> bool;

    /// The cosine of the angle.
    fn cos(self) -> (r: Self)
        ensures
            self.is_cos_spec(r),
    ;

    /// The sine of the angle.
    fn sin(self) -> (r: Self)
        ensures
            self.is_sin_spec(r),
    ;
}

/// A scalar that can be cut down to a whole number.
pub trait Truncate: Scalar {
    /// The whole part of `self` as far as 32 bits without a sign hold it:
    /// zero for what lies below zero, the largest such number for what
    /// lies above it.
    spec fn to_u32_spec(self) -> u32;

    /// The whole part of `self`, within the range of `u32`.
    fn to_u32(self) -> (n: u32)
        ensures
            n == self.to_u32_spec(),
    ;
}

} // verus!
