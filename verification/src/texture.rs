//! Immutable textures sampled by integer pixel coordinates.
//!
//! A texture is a `width` x `height` grid of colors stored row-major. The
//! grid is built either from already-decoded RGB bytes or by decoding an
//! encoded image through the image crate; only the decoder call itself is
//! trusted, the grid construction and the sampling are verified.

use vstd::prelude::*;

verus! {

use crate::color::{Color, color_of_hex};

/// What image decoding yields for a given encoded byte string: the pixel
/// dimensions and the row-major RGB bytes (three per pixel), or nothing when
/// the bytes are not a decodable image. Decoding depends on the bytes alone.
pub uninterp spec fn decoded_image(bytes: Seq<u8>) -> Option<(usize, usize, Seq<u8>)>;

/// Relies on image::load_from_memory and image::DynamicImage::into_rgb8:
/// decoding is a pure function of the encoded bytes, and the RGB buffer it
/// yields holds the image row-major, three bytes per pixel, so it is at
/// least `3 * width * height` bytes long.
#[verifier::external_body]
fn decode_rgb(bytes: &[u8]) -> (result: Option<(usize, usize, Vec<u8>)>)
    ensures
        match result {
            Some(t) => decoded_image(bytes@) == Some((t.0, t.1, t.2@))
                && t.2@.len() >= 3 * t.0 * t.1,
            None => decoded_image(bytes@) is None,
        },
{
    match image::load_from_memory(bytes) {
        Ok(img) => {
            let rgb = img.into_rgb8();
            let w = rgb.width() as usize;
            let h = rgb.height() as usize;
            Some((w, h, rgb.into_raw()))
        }
        Err(_) => None,
    }
}

/// The color that row-major RGB bytes hold for pixel column `x`, row `y`.
pub open spec fn rgb_texel(data: Seq<u8>, width: int, x: int, y: int) -> Color {
    Color {
        r: data[3 * (y * width + x)],
        g: data[3 * (y * width + x) + 1],
        b: data[3 * (y * width + x) + 2],
    }
}

/// An immutable grid of colors, `width` across and `height` down, stored
/// row-major.
pub struct Texture {
    width: usize,
    height: usize,
    color_array: Vec<Color>,
}

impl Texture {
    #[verifier::type_invariant]
    spec fn wf(self) -> bool {
        self.color_array@.len() == self.width * self.height
    }

    pub closed spec fn spec_width(self) -> usize {
        self.width
    }

    pub closed spec fn spec_height(self) -> usize {
        self.height
    }

    /// The color stored for pixel column `x`, row `y`.
    pub closed spec fn texel(self, x: int, y: int) -> Color {
        self.color_array@[y * self.width + x]
    }

    pub fn width(&self) -> (w: usize)
        ensures
            w == self.spec_width(),
    {
        self.width
    }

    pub fn height(&self) -> (h: usize)
        ensures
            h == self.spec_height(),
    {
        self.height
    }

    /// Builds the grid from row-major RGB bytes, three per pixel.
    pub fn from_rgb(width: usize, height: usize, data: &[u8]) -> (t: Texture)
        requires
            data@.len() >= 3 * width * height,
        ensures
            t.spec_width() == width,
            t.spec_height() == height,
            forall|x: int, y: int|
                0 <= x < width && 0 <= y < height ==> t.texel(x, y) == rgb_texel(
                    data@,
                    width as int,
                    x,
                    y,
                ),
    {
        let len = data.len();
        proof {
            assert(width * height <= data@.len() && 3 * (width * height) <= data@.len())
                by (nonlinear_arith)
                requires
                    data@.len() >= 3 * width * height,
            ;
        }
        let n = width * height;
        let mut color_array: Vec<Color> = Vec::new();
        let mut i: usize = 0;
        while i < n
            invariant
                n == width * height,
                len == data@.len(),
                data@.len() >= 3 * n,
                i <= n,
                color_array@.len() == i,
                forall|j: int|
                    0 <= j < i ==> color_array@[j] == (Color {
                        r: data@[3 * j],
                        g: data@[3 * j + 1],
                        b: data@[3 * j + 2],
                    }),
            decreases n - i,
        {
            color_array.push(Color { r: data[3 * i], g: data[3 * i + 1], b: data[3 * i + 2] });
            i = i + 1;
        }
        let t = Texture { width, height, color_array };
        proof {
            assert forall|x: int, y: int| 0 <= x < width && 0 <= y < height implies t.texel(x, y)
                == rgb_texel(data@, width as int, x, y) by {
                assert(0 <= y * width + x < width * height) by (nonlinear_arith)
                    requires
                        0 <= x < width,
                        0 <= y < height,
                ;
            }
        }
        t
    }

    /// Decodes an encoded image (any format the decoder recognizes) into a
    /// texture; `None` exactly when the bytes are not a decodable image.
    pub fn new(bytes: &[u8]) -> (result: Option<Texture>)
        ensures
            match decoded_image(bytes@) {
                Some(d) => match result {
                    Some(t) => t.spec_width() == d.0 && t.spec_height() == d.1 && forall|
                        x: int,
                        y: int,
                    |
                        0 <= x < d.0 && 0 <= y < d.1 ==> t.texel(x, y) == rgb_texel(
                            d.2,
                            d.0 as int,
                            x,
                            y,
                        ),
                    None => false,
                },
                None => result is None,
            },
    {
        match decode_rgb(bytes) {
            Some((width, height, data)) => Some(Self::from_rgb(width, height, data.as_slice())),
            None => None,
        }
    }

    /// Nearest-neighbor lookup; coordinates off the grid give the reserved
    /// debug color, magenta.
    pub fn get_color(&self, x: usize, y: usize) -> (c: Color)
        ensures
            c == if x < self.spec_width() && y < self.spec_height() {
                self.texel(x as int, y as int)
            } else {
                color_of_hex(0xFF00FF)
            },
    {
        proof {
            use_type_invariant(self);
        }
        if x >= self.width || y >= self.height {
            Color::from_hex(0xFF00FF)
        } else {
            proof {
                vstd::std_specs::vec::axiom_spec_len(&self.color_array);
                assert(0 <= y * self.width + x < self.width * self.height) by (nonlinear_arith)
                    requires
                        0 <= x < self.width,
                        0 <= y < self.height,
                ;
            }
            self.color_array[y * self.width + x]
        }
    }
}

} // verus!
