use vstd::prelude::*;

verus! {

/// Approximate equality, for values that carry rounding error.
pub trait ApproxEq {
    /// Whether `self` and `other` count as equal.
    spec fn approx_spec(&self, other: &Self) -> bool;

    /// Whether `self` and `other` count as equal.
    fn approx_cmp(&self, other: &Self) -> (b: bool)
        ensures
            b == self.approx_spec(other),
    ;
}

/// Rounding to a number of decimal places.
pub trait SpecificRound: Sized {
    /// `self` rounded to `places` decimal places.
    spec fn round_spec(&self, places: u32) -> Self;

    /// `self` rounded to `places` decimal places.
    fn specific_round(&self, places: u32) -> (r: Self)
        ensures
            r == self.round_spec(places),
    ;
}

} // verus!
