use vstd::prelude::*;

verus! {

/// One pixel: red, green, blue and alpha channels of eight bits each.
#[derive(Clone, Copy, Debug, PartialEq, Eq, Structural)]
pub struct Pixel {
    pub r: u8,
    pub g: u8,
    pub b: u8,
    pub a: u8,
}

/// The fully opaque alpha value.
pub const OPAQUE: u8 = 255;

impl Pixel {
    /// Builds a pixel from its four channels.
    pub fn new(r: u8, g: u8, b: u8, a: u8) -> (p: Pixel)
        ensures
            p == (Pixel { r, g, b, a }),
    {
        Pixel { r, g, b, a }
    }

    /// The same colour with alpha forced to fully opaque.
    pub open spec fn opaque_spec(self) -> Pixel {
        Pixel { a: OPAQUE, ..self }
    }

    /// Returns the same colour with alpha forced to fully opaque.
    pub fn opaque(self) -> (p: Pixel)
        ensures
            p == self.opaque_spec(),
    {
        Pixel { r: self.r, g: self.g, b: self.b, a: OPAQUE }
    }

    /// Whether two pixels agree on red, green and blue.
    pub open spec fn same_color(self, other: Pixel) -> bool {
        self.r == other.r && self.g == other.g && self.b == other.b
    }
}

/// The area of a grid with 32-bit sides fits in 64 bits.
pub proof fn lemma_area_fits_u64(w: u32, h: u32)
    ensures
        0 <= w as int * h as int <= u64::MAX,
{
    assert(0 <= w as int * h as int <= u32::MAX as int * u32::MAX as int) by (nonlinear_arith)
        requires
            w <= u32::MAX,
            h <= u32::MAX,
    ;
}

/// A rectangular grid of pixels stored row by row.
#[derive(Clone, Debug)]
pub struct PixelBuffer {
    pub width: u32,
    pub height: u32,
    pub pixels: Vec<Pixel>,
}

impl PixelBuffer {
    /// The buffer holds exactly `width * height` pixels.
    pub open spec fn wf(&self) -> bool {
        self.pixels@.len() == self.width as int * self.height as int
    }

    /// The pixel at column `x` and row `y`.
    pub open spec fn at(&self, x: int, y: int) -> Pixel {
        self.pixels@[y * self.width as int + x]
    }

    /// Builds a buffer from its dimensions and its pixels in row-major order.
    pub fn new(width: u32, height: u32, pixels: Vec<Pixel>) -> (r: Option<PixelBuffer>)
        ensures
            r is Some <==> pixels@.len() == width as int * height as int,
            r matches Some(b) ==> b.width == width && b.height == height && b.pixels@ == pixels@,
    {
        proof {
            lemma_area_fits_u64(width, height);
        }
        let n: u64 = width as u64 * height as u64;
        if pixels.len() as u64 == n {
            Some(PixelBuffer { width, height, pixels })
        } else {
            None
        }
    }

    /// Builds a `width` by `height` buffer of one colour.
    pub fn filled(width: u32, height: u32, p: Pixel) -> (r: PixelBuffer)
        requires
            width as int * height as int <= usize::MAX,
        ensures
            r.wf(),
            r.width == width,
            r.height == height,
            forall|i: int| 0 <= i < r.pixels@.len() ==> r.pixels@[i] == p,
    {
        proof {
            lemma_area_fits_u64(width, height);
        }
        let n: usize = (width as u64 * height as u64) as usize;
        let mut pixels: Vec<Pixel> = Vec::new();
        let mut i: usize = 0;
        while i < n
            invariant
                i <= n,
                pixels@.len() == i,
                forall|j: int| 0 <= j < i ==> pixels@[j] == p,
            decreases n - i,
        {
            pixels.push(p);
            i = i + 1;
        }
        PixelBuffer { width, height, pixels }
    }
}

} // verus!
