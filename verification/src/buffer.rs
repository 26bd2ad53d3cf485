//! The canonical image: width, height and tightly packed RGBA bytes.

use vstd::prelude::*;

verus! {

/// An RGBA colour with straight (unmultiplied) alpha.
#[derive(Clone, Copy, Debug, PartialEq, Eq, Structural)]
pub struct Color {
    pub r: u8,
    pub g: u8,
    pub b: u8,
    pub a: u8,
}

/// A pixel index, or a pointer position, that falls outside the image.
#[derive(Clone, Copy, Debug, PartialEq, Eq, Structural)]
pub struct OutOfBounds;

/// The byte sequence handed to a constructor is not `width * height * 4` long.
#[derive(Clone, Copy, Debug, PartialEq, Eq, Structural)]
pub struct SizeMismatch;

/// The colour stored in the four bytes that start at offset `4 * i`.
pub open spec fn color_at(bytes: Seq<u8>, i: int) -> Color {
    Color { r: bytes[4 * i], g: bytes[4 * i + 1], b: bytes[4 * i + 2], a: bytes[4 * i + 3] }
}

/// The first `count` colours of a packed RGBA byte sequence.
pub open spec fn pixels_of(bytes: Seq<u8>, count: nat) -> Seq<Color> {
    Seq::new(count, |i: int| color_at(bytes, i))
}

/// Mathematical model of an image: its dimensions and its pixels, row by row.
pub struct PixelGrid {
    pub width: nat,
    pub height: nat,
    pub pixels: Seq<Color>,
}

/// The grid that `width * height * 4` packed RGBA bytes describe.
pub open spec fn grid_of(width: nat, height: nat, bytes: Seq<u8>) -> PixelGrid {
    PixelGrid { width, height, pixels: pixels_of(bytes, width * height) }
}

/// An image in the canonical layout. Its dimensions never change, and its
/// byte length is always `width * height * 4`.
#[derive(Debug, PartialEq, Eq)]
pub struct PixelBuffer {
    width: usize,
    height: usize,
    bytes: Vec<u8>,
}

impl View for PixelBuffer {
    type V = PixelGrid;

    closed spec fn view(&self) -> PixelGrid {
        grid_of(self.width as nat, self.height as nat, self.bytes@)
    }
}

impl Clone for PixelBuffer {
    fn clone(&self) -> (copy: Self)
        ensures
            copy@ == self@,
            copy.raw() == self.raw(),
    {
        proof {
            use_type_invariant(self);
        }
        PixelBuffer { width: self.width, height: self.height, bytes: self.bytes.clone() }
    }
}

impl PixelBuffer {
    #[verifier::type_invariant]
    spec fn packed(self) -> bool {
        self.bytes@.len() == self.width * self.height * 4 <= usize::MAX
    }

    /// The packed RGBA bytes of the image.
    pub closed spec fn raw(&self) -> Seq<u8> {
        self.bytes@
    }

    /// The pixels of a buffer are its bytes taken four at a time, one pixel
    /// for each position of the grid.
    pub proof fn lemma_shape(&self)
        ensures
            self@.pixels.len() == self@.width * self@.height,
            self@.width <= usize::MAX,
            self@.height <= usize::MAX,
            self@ == grid_of(self@.width, self@.height, self.raw()),
    {
    }

    /// Builds an image from packed RGBA bytes, which are kept as they are.
    /// Fails exactly when the byte count is not `width * height * 4`.
    pub fn from_rgba(width: usize, height: usize, bytes: Vec<u8>) -> (r: Result<
        PixelBuffer,
        SizeMismatch,
    >)
        ensures
            r is Ok <==> bytes@.len() == width * height * 4,
            r is Ok ==> r->Ok_0@ == grid_of(width as nat, height as nat, bytes@) && r->Ok_0.raw()
                == bytes@,
    {
        let given: usize = bytes.len();
        match width.checked_mul(height) {
            Some(count) => match count.checked_mul(4) {
                Some(len) => {
                    if given == len {
                        Ok(PixelBuffer { width, height, bytes })
                    } else {
                        Err(SizeMismatch)
                    }
                },
                None => Err(SizeMismatch),
            },
            None => Err(SizeMismatch),
        }
    }

    /// Number of pixels in a row.
    pub fn width(&self) -> (w: usize)
        ensures
            w == self@.width,
    {
        self.width
    }

    /// Number of rows.
    pub fn height(&self) -> (h: usize)
        ensures
            h == self@.height,
    {
        self.height
    }

    /// Width and height together. Their product fits a `usize`.
    pub fn dims(&self) -> (d: (usize, usize))
        ensures
            d.0 == self@.width,
            d.1 == self@.height,
            d.0 * d.1 <= usize::MAX,
    {
        proof {
            use_type_invariant(self);
        }
        (self.width, self.height)
    }

    /// Number of pixels in the image.
    pub fn pixel_count(&self) -> (n: usize)
        ensures
            n == self@.width * self@.height,
            n == self@.pixels.len(),
    {
        proof {
            use_type_invariant(self);
        }
        self.bytes.len() / 4
    }

    /// The packed RGBA bytes, four per pixel, row by row.
    pub fn as_bytes(&self) -> (bytes: &Vec<u8>)
        ensures
            bytes@ == self.raw(),
            bytes@.len() == self@.width * self@.height * 4,
    {
        proof {
            use_type_invariant(self);
        }
        &self.bytes
    }

    /// The colour of the pixel at `index`, counted row by row from the top
    /// left. Any index from `width * height` on is out of bounds.
    pub fn sample(&self, index: usize) -> (r: Result<Color, OutOfBounds>)
        ensures
            r is Ok <==> index < self@.width * self@.height,
            r is Ok ==> r->Ok_0 == self@.pixels[index as int],
            r is Ok ==> r->Ok_0 == color_at(self.raw(), index as int),
    {
        proof {
            use_type_invariant(self);
        }
        if index < self.bytes.len() / 4 {
            let at: usize = 4 * index;
            Ok(
                Color {
                    r: self.bytes[at],
                    g: self.bytes[at + 1],
                    b: self.bytes[at + 2],
                    a: self.bytes[at + 3],
                },
            )
        } else {
            Err(OutOfBounds)
        }
    }
}

/// Reading back pixel `i` of an image built from packed RGBA bytes yields
/// exactly the four bytes at offsets `4 * i` to `4 * i + 3`.
pub proof fn lemma_read_back(width: nat, height: nat, bytes: Seq<u8>, i: int)
    requires
        bytes.len() == width * height * 4,
        0 <= i < width * height,
    ensures
        grid_of(width, height, bytes).pixels.len() == width * height,
        grid_of(width, height, bytes).pixels[i] == color_at(bytes, i),
        bytes.subrange(4 * i, 4 * i + 4) == seq![
            grid_of(width, height, bytes).pixels[i].r,
            grid_of(width, height, bytes).pixels[i].g,
            grid_of(width, height, bytes).pixels[i].b,
            grid_of(width, height, bytes).pixels[i].a,
        ],
{
    let c = grid_of(width, height, bytes).pixels[i];
    assert(bytes.subrange(4 * i, 4 * i + 4) =~= seq![c.r, c.g, c.b, c.a]);
}

} // verus!
