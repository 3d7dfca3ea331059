use vstd::prelude::*;
use crate::color::Color;
use crate::point::Point;
use crate::scalar::Scalar;

verus! {

/// A light without size: where it is and what it sheds.
pub struct PointLight<T> {
    pub position: Point<T>,
    pub color: Color<T>,
}

impl<T> PointLight<T> {
    /// The light at `position` that sheds `color`.
    pub fn new(position: Point<T>, color: Color<T>) -> (l: PointLight<T>)
        ensures
            l.position == position,
            l.color == color,
    {
        PointLight { position, color }
    }
}

/// The coefficient of a material that lies outside of the open interval
/// from zero to one.
#[derive(Debug, Clone, Copy, PartialEq, Eq)]
pub enum ValidationError {
    Ambient,
    Diffuse,
    Specular,
    Shininess,
}

/// Whether `value` lies strictly between zero and one.
pub open spec fn is_fractional_spec<T: Scalar>(value: T) -> bool {
    T::zero_spec().lt_spec(value) && value.lt_spec(T::one_spec())
}

/// Whether `value` lies strictly between zero and one.
pub fn is_fractional<T: Scalar>(value: T) -> (b: bool)
    ensures
        b == is_fractional_spec(value),
{
    T::zero().lt(value) && value.lt(T::one())
}

/// How a surface answers to light. Each of its four coefficients lies
/// strictly between zero and one.
#[derive(Debug)]
pub struct Material<T: Scalar> {
    color: Color<T>,
    ambient: T,
    diffuse: T,
    specular: T,
    shininess: T,
}

impl<T: Scalar> Material<T> {
    #[verifier::type_invariant]
    spec fn coefficients_are_fractional(self) -> bool {
        &&& is_fractional_spec(self.ambient)
        &&& is_fractional_spec(self.diffuse)
        &&& is_fractional_spec(self.specular)
        &&& is_fractional_spec(self.shininess)
    }

    /// The color of the surface.
    pub closed spec fn spec_color(&self) -> Color<T> {
        self.color
    }

    /// How much of the light around it the surface gives back.
    pub closed spec fn spec_ambient(&self) -> T {
        self.ambient
    }

    /// How much of a light the surface scatters.
    pub closed spec fn spec_diffuse(&self) -> T {
        self.diffuse
    }

    /// How much of a light the surface mirrors.
    pub closed spec fn spec_specular(&self) -> T {
        self.specular
    }

    /// How tight the mirrored light is.
    pub closed spec fn spec_shininess(&self) -> T {
        self.shininess
    }

    /// Whether each coefficient lies strictly between zero and one. Every
    /// material that executable code holds is such.
    pub open spec fn wf(&self) -> bool {
        &&& is_fractional_spec(self.spec_ambient())
        &&& is_fractional_spec(self.spec_diffuse())
        &&& is_fractional_spec(self.spec_specular())
        &&& is_fractional_spec(self.spec_shininess())
    }

    /// The material of the given color and coefficients. It names the
    /// first coefficient, in the order of the parameters, that does not lie
    /// strictly between zero and one.
    pub fn new(color: Color<T>, ambient: T, diffuse: T, specular: T, shininess: T) -> (r: Result<
        Material<T>,
        ValidationError,
    >)
        ensures
            r is Ok <==> is_fractional_spec(ambient) && is_fractional_spec(diffuse)
                && is_fractional_spec(specular) && is_fractional_spec(shininess),
            r matches Ok(m) ==> m.spec_color() == color && m.spec_ambient() == ambient
                && m.spec_diffuse() == diffuse && m.spec_specular() == specular
                && m.spec_shininess() == shininess && m.wf(),
            r matches Err(e) ==> e == (if !is_fractional_spec(ambient) {
                ValidationError::Ambient
            } else if !is_fractional_spec(diffuse) {
                ValidationError::Diffuse
            } else if !is_fractional_spec(specular) {
                ValidationError::Specular
            } else {
                ValidationError::Shininess
            }),
    {
        if !is_fractional(ambient) {
            return Err(ValidationError::Ambient);
        }
        if !is_fractional(diffuse) {
            return Err(ValidationError::Diffuse);
        }
        if !is_fractional(specular) {
            return Err(ValidationError::Specular);
        }
        if !is_fractional(shininess) {
            return Err(ValidationError::Shininess);
        }
        Ok(Material { color, ambient, diffuse, specular, shininess })
    }

    /// The color of the surface.
    pub fn color(&self) -> (c: Color<T>)
        ensures
            c == self.spec_color(),
    {
        self.color
    }

    /// How much of the light around it the surface gives back.
    pub fn ambient(&self) -> (v: T)
        ensures
            v == self.spec_ambient(),
            is_fractional_spec(v),
    {
        proof {
            use_type_invariant(self);
        }
        self.ambient
    }

    /// How much of a light the surface scatters.
    pub fn diffuse(&self) -> (v: T)
        ensures
            v == self.spec_diffuse(),
            is_fractional_spec(v),
    {
        proof {
            use_type_invariant(self);
        }
        self.diffuse
    }

    /// How much of a light the surface mirrors.
    pub fn specular(&self) -> (v: T)
        ensures
            v == self.spec_specular(),
            is_fractional_spec(v),
    {
        proof {
            use_type_invariant(self);
        }
        self.specular
    }

    /// How tight the mirrored light is.
    pub fn shininess(&self) -> (v: T)
        ensures
            v == self.spec_shininess(),
            is_fractional_spec(v),
    {
        proof {
            use_type_invariant(self);
        }
        self.shininess
    }
}

impl<T: Scalar> Clone for Material<T> {
    fn clone(&self) -> (m: Self)
        ensures
            m == *self,
    {
        *self
    }
}

impl<T: Scalar> Copy for Material<T> {

}

/// What carries a material.
pub trait Texture<T: Scalar> {
    /// Gives the carrier the material `material`.
    fn set_material(&mut self, material: Material<T>);

    /// The material of the carrier.
    fn get_material(&self) -> Material<T>;
}

impl<T: Scalar> Texture<T> for Material<T> {
    /// Takes the place of this material by `material`.
    fn set_material(&mut self, material: Material<T>)
        ensures
            *final(self) == material,
    {
        *self = material;
    }

    /// This material.
    fn get_material(&self) -> (m: Material<T>)
        ensures
            m == *self,
    {
        *self
    }
}

} // verus!
