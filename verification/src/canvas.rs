use vstd::prelude::*;
use vstd::string::*;
use crate::color::Color;
use crate::geometry::Geometry;
use crate::lighting::{PointLight, Texture};
use crate::point::Point;
use crate::scalar::{Scalar, Truncate};
use crate::text::{decimal, decimal_spec, Printable};

verus! {

/// The first lines of a picture of `width` by `height` pixels in the plain
/// text format: the mark `P3`, the two sizes, and the largest channel
/// value, 255.
pub open spec fn ppm_header_spec(width: u32, height: u32) -> Seq<char> {
    seq!['P', '3', '\n'] + decimal_spec(width as nat) + seq![' '] + decimal_spec(height as nat)
        + seq!['\n', '2', '5', '5', '\n']
}

/// The line of one pixel: its three channels as they are written, with a
/// blank between them.
pub open spec fn ppm_line_spec<T: Printable>(pixel: Color<T>) -> Seq<char> {
    pixel.r.text_spec()@ + seq![' '] + pixel.g.text_spec()@ + seq![' '] + pixel.b.text_spec()@
        + seq!['\n']
}

/// The lines of `pixels`, in their order.
pub open spec fn ppm_body_spec<T: Printable>(pixels: Seq<Color<T>>) -> Seq<char>
    decreases pixels.len(),
{
    if pixels.len() == 0 {
        Seq::empty()
    } else {
        ppm_body_spec(pixels.drop_last()) + ppm_line_spec(pixels.last())
    }
}

/// Where the pixel of column `x` and row `y` lies in the row-major
/// sequence of the pixels of a picture `width` wide.
pub open spec fn pixel_index_spec(width: u32, x: u32, y: u32) -> int {
    y * width + x
}

/// Puts `value` at place `i` of `v`.
fn put<A>(v: &mut Vec<A>, i: usize, value: A)
    requires
        i < old(v)@.len(),
    ensures
        final(v)@ == old(v)@.update(i as int, value),
    no_unwind
{
    v[i] = value;
}

/// A raster of pixels, row by row from the top, and the lights of the
/// scene it shows.
pub struct Canvas<T> {
    width: u32,
    height: u32,
    pixels: Vec<Color<T>>,
    lights: Vec<PointLight<T>>,
}

impl<T> Canvas<T> {
    #[verifier::type_invariant]
    spec fn holds_every_pixel(self) -> bool {
        self.pixels@.len() == self.width * self.height
    }

    /// How many pixels a row holds.
    pub closed spec fn spec_width(&self) -> u32 {
        self.width
    }

    /// How many rows there are.
    pub closed spec fn spec_height(&self) -> u32 {
        self.height
    }

    /// The pixels, row by row.
    pub closed spec fn spec_pixels(&self) -> Seq<Color<T>> {
        self.pixels@
    }

    /// The lights the canvas keeps.
    pub closed spec fn spec_lights(&self) -> Seq<PointLight<T>> {
        self.lights@
    }

    /// Whether there is one pixel for each place of the raster. Every
    /// canvas that executable code holds is such.
    pub open spec fn wf(&self) -> bool {
        self.spec_pixels().len() == self.spec_width() * self.spec_height()
    }

    /// How many pixels a row holds.
    #[verifier::when_used_as_spec(spec_width)]
    pub fn width(&self) -> (w: u32)
        ensures
            w == self.spec_width(),
    {
        self.width
    }

    /// How many rows there are.
    #[verifier::when_used_as_spec(spec_height)]
    pub fn height(&self) -> (h: u32)
        ensures
            h == self.spec_height(),
    {
        self.height
    }

    /// The pixels, row by row.
    pub fn pixels(&self) -> (p: &Vec<Color<T>>)
        ensures
            p@ == self.spec_pixels(),
            self.wf(),
    {
        proof {
            use_type_invariant(self);
        }
        &self.pixels
    }

    /// The lights the canvas keeps.
    pub fn lights(&self) -> (l: &Vec<PointLight<T>>)
        ensures
            l@ == self.spec_lights(),
    {
        &self.lights
    }

    /// Colors the pixel of column `x` and row `y`. A place outside of the
    /// raster is passed over.
    pub fn set_pixel(&mut self, x: u32, y: u32, color: Color<T>)
        ensures
            final(self).width() == old(self).width(),
            final(self).height() == old(self).height(),
            final(self).spec_lights() == old(self).spec_lights(),
            final(self).wf(),
            final(self).spec_pixels() == (if x < old(self).width() && y < old(self).height() {
                old(self).spec_pixels().update(pixel_index_spec(old(self).width(), x, y), color)
            } else {
                old(self).spec_pixels()
            }),
    {
        proof {
            use_type_invariant(&*self);
        }
        if x >= self.width || y >= self.height {
            return ;
        }
        assert(y * self.width + x < self.width * self.height) by (nonlinear_arith)
            requires
                x < self.width,
                y < self.height,
        ;
        let total = self.pixels.len();
        assert(total == self.width * self.height);
        assert(0 <= y * self.width) by (nonlinear_arith);
        let index = y as usize * self.width as usize + x as usize;
        put(&mut self.pixels, index, color);
    }

    /// Colors the pixel of column `x` that lies `y` rows above the lower
    /// edge, the edge itself being outside. A place outside of the raster
    /// is passed over.
    pub fn plot(&mut self, x: u32, y: u32, color: Color<T>)
        ensures
            final(self).width() == old(self).width(),
            final(self).height() == old(self).height(),
            final(self).spec_lights() == old(self).spec_lights(),
            final(self).wf(),
            final(self).spec_pixels() == (if x < old(self).width() && 0 < y <= old(self).height() {
                old(self).spec_pixels().update(
                    pixel_index_spec(old(self).width(), x, (old(self).height() - y) as u32),
                    color,
                )
            } else {
                old(self).spec_pixels()
            }),
    {
        proof {
            use_type_invariant(&*self);
        }
        if y > self.height {
            return ;
        }
        let row = self.height - y;
        self.set_pixel(x, row, color);
    }

    /// Takes note of a light. The raster keeps no light of its own
    /// accord: the canvas is left as it is.
    pub fn add_light(&mut self, light: PointLight<T>)
        ensures
            final(self).width() == old(self).width(),
            final(self).height() == old(self).height(),
            final(self).spec_lights() == old(self).spec_lights(),
            final(self).spec_pixels() == old(self).spec_pixels(),
    {
    }
}

impl<T: Scalar> Canvas<T> {
    /// The canvas of `width` by `height` black pixels, without lights.
    pub fn new(width: u32, height: u32) -> (c: Canvas<T>)
        requires
            width * height <= usize::MAX,
        ensures
            c.width() == width,
            c.height() == height,
            c.wf(),
            c.spec_lights().len() == 0,
            forall|i: int| 0 <= i < width * height ==> #[trigger] c.spec_pixels()[i] == Color::<
                T,
            >::black_spec(),
    {
        let total = width as usize * height as usize;
        let mut pixels: Vec<Color<T>> = Vec::new();
        let mut i: usize = 0;
        while i < total
            invariant
                i <= total,
                pixels@.len() == i,
                forall|k: int| 0 <= k < i ==> #[trigger] pixels@[k] == Color::<T>::black_spec(),
            decreases total - i,
        {
            pixels.push(Color::black());
            i += 1;
        }
        Canvas { width, height, pixels, lights: Vec::new() }
    }
}

impl<T: Truncate> Canvas<T> {
    /// Colors the pixel under `point`: the one of the column of its `x`
    /// and as many rows above the lower edge as its `y`, both without
    /// their fractions. The depth of the point plays no part.
    pub fn draw_point(&mut self, point: Point<T>, color: Color<T>)
        ensures
            final(self).width() == old(self).width(),
            final(self).height() == old(self).height(),
            final(self).spec_lights() == old(self).spec_lights(),
            final(self).wf(),
            final(self).spec_pixels() == (if point.x.to_u32_spec() < old(self).width() && 0
                < point.y.to_u32_spec() <= old(self).height() {
                old(self).spec_pixels().update(
                    pixel_index_spec(
                        old(self).width(),
                        point.x.to_u32_spec(),
                        (old(self).height() - point.y.to_u32_spec()) as u32,
                    ),
                    color,
                )
            } else {
                old(self).spec_pixels()
            }),
    {
        let x = point.x.to_u32();
        let y = point.y.to_u32();
        self.plot(x, y, color);
    }
}

impl<T: Printable> Canvas<T> {
    /// The picture in the plain text format: the header, then one line
    /// for each pixel. No channel is scaled or held to the range that the
    /// header names.
    pub fn to_ppm(&self) -> (s: String)
        ensures
            s@ == ppm_header_spec(self.width(), self.height()) + ppm_body_spec(self.spec_pixels()),
    {
        let mut ppm = String::new();
        proof {
            reveal_strlit("P3\n");
            reveal_strlit(" ");
            reveal_strlit("\n");
            reveal_strlit("255\n");
        }
        ppm.append("P3\n");
        let width = decimal(self.width);
        ppm.append(width.as_str());
        ppm.append(" ");
        let height = decimal(self.height);
        ppm.append(height.as_str());
        ppm.append("\n");
        ppm.append("255\n");
        assert(ppm@ =~= ppm_header_spec(self.width, self.height));
        let ghost header = ppm@;
        let mut i: usize = 0;
        while i < self.pixels.len()
            invariant
                i <= self.pixels@.len(),
                ppm@ == header + ppm_body_spec(self.pixels@.take(i as int)),
            decreases self.pixels.len() - i,
        {
            let pixel = &self.pixels[i];
            let ghost before = ppm@;
            let r = pixel.r.to_text();
            let g = pixel.g.to_text();
            let b = pixel.b.to_text();
            ppm.append(r.as_str());
            ppm.append(" ");
            ppm.append(g.as_str());
            ppm.append(" ");
            ppm.append(b.as_str());
            ppm.append("\n");
            proof {
                reveal_strlit(" ");
                reveal_strlit("\n");
                let upto = self.pixels@.take(i + 1);
                assert(upto.drop_last() =~= self.pixels@.take(i as int));
                assert(upto.last() == *pixel);
                assert(ppm@ =~= before + ppm_line_spec(*pixel));
                assert(ppm@ =~= header + ppm_body_spec(upto));
            }
            i += 1;
        }
        assert(self.pixels@.take(self.pixels@.len() as int) =~= self.pixels@);
        ppm
    }
}

/// A shape together with the material of its surface.
pub struct SceneObject<G, M> {
    pub geometry: G,
    pub material: M,
}

impl<G, M> SceneObject<G, M> {
    /// The object of the shape `geometry` with the surface `material`.
    pub fn new<T: Scalar>(geometry: G, material: M) -> (o: SceneObject<G, M>) where
        G: Geometry<T>,
        M: Texture<T>,

        ensures
            o.geometry == geometry,
            o.material == material,
    {
        SceneObject { geometry, material }
    }
}

} // verus!
