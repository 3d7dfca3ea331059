use vstd::prelude::*;
use crate::scalar::Scalar;

verus! {

/// An amount of red, green and blue light. No channel is held to a range.
#[derive(Debug, Clone, Copy)]
pub struct Color<T> {
    pub r: T,
    pub g: T,
    pub b: T,
}

impl<T: Scalar> Color<T> {
    /// The color whose channels are zero.
    pub open spec fn black_spec() -> Self {
        Color { r: T::zero_spec(), g: T::zero_spec(), b: T::zero_spec() }
    }

    /// The sum, channel by channel.
    pub open spec fn add_spec(self, other: Self) -> Self {
        Color {
            r: self.r.add_spec(other.r),
            g: self.g.add_spec(other.g),
            b: self.b.add_spec(other.b),
        }
    }

    /// The difference, channel by channel.
    pub open spec fn sub_spec(self, other: Self) -> Self {
        Color {
            r: self.r.sub_spec(other.r),
            g: self.g.sub_spec(other.g),
            b: self.b.sub_spec(other.b),
        }
    }

    /// Each channel times `factor`.
    pub open spec fn scale_spec(self, factor: T) -> Self {
        Color {
            r: self.r.mul_spec(factor),
            g: self.g.mul_spec(factor),
            b: self.b.mul_spec(factor),
        }
    }

    /// The product, channel by channel.
    pub open spec fn mul_spec(self, other: Self) -> Self {
        Color {
            r: self.r.mul_spec(other.r),
            g: self.g.mul_spec(other.g),
            b: self.b.mul_spec(other.b),
        }
    }

    /// The color of the given channels.
    pub fn new(r: T, g: T, b: T) -> (c: Color<T>)
        ensures
            c == (Color { r, g, b }),
    {
        Color { r, g, b }
    }

    /// The color without any light.
    pub fn black() -> (c: Color<T>)
        ensures
            c == Self::black_spec(),
    {
        Color::new(T::zero(), T::zero(), T::zero())
    }

    /// The sum of the two colors, channel by channel.
    pub fn add(self, other: Color<T>) -> (c: Color<T>)
        ensures
            c == self.add_spec(other),
    {
        Color { r: self.r.add(other.r), g: self.g.add(other.g), b: self.b.add(other.b) }
    }

    /// The difference of the two colors, channel by channel.
    pub fn sub(self, other: Color<T>) -> (c: Color<T>)
        ensures
            c == self.sub_spec(other),
    {
        Color { r: self.r.sub(other.r), g: self.g.sub(other.g), b: self.b.sub(other.b) }
    }

    /// The color with each channel multiplied by `factor`.
    pub fn scale(self, factor: T) -> (c: Color<T>)
        ensures
            c == self.scale_spec(factor),
    {
        Color { r: self.r.mul(factor), g: self.g.mul(factor), b: self.b.mul(factor) }
    }

    /// The color with each channel multiplied by that of `other`.
    pub fn mul(self, other: Color<T>) -> (c: Color<T>)
        ensures
            c == self.mul_spec(other),
    {
        Color { r: self.r.mul(other.r), g: self.g.mul(other.g), b: self.b.mul(other.b) }
    }
}

} // verus!
