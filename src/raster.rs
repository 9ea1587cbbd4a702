//! The in-memory raster: a width x height grid of RGBA samples, row-major.
use vstd::prelude::*;

verus! {

/// One pixel: four 8-bit channels.
#[derive(Clone, Copy, Debug, PartialEq, Eq, Structural)]
pub struct Rgba {
    pub r: u8,
    pub g: u8,
    pub b: u8,
    pub a: u8,
}

/// The fully transparent pixel that fresh canvases are filled with.
pub open spec fn transparent() -> Rgba {
    Rgba { r: 0, g: 0, b: 0, a: 0 }
}

impl Rgba {
    /// A fully transparent pixel.
    pub fn transparent() -> (r: Rgba)
        ensures
            r == transparent(),
    {
        Rgba { r: 0, g: 0, b: 0, a: 0 }
    }
}

/// Mathematical model of a raster image.
pub struct ImageModel {
    pub width: nat,
    pub height: nat,
    pub pixels: Seq<Rgba>,
}

impl ImageModel {
    /// Dimensions fit `u32` and there is exactly one pixel per cell.
    pub open spec fn wf(self) -> bool {
        &&& self.width <= u32::MAX
        &&& self.height <= u32::MAX
        &&& self.pixels.len() == self.width * self.height
        &&& self.width * self.height <= usize::MAX
    }

    pub open spec fn in_bounds(self, x: int, y: int) -> bool {
        0 <= x < self.width && 0 <= y < self.height
    }

    /// Row-major position of cell (x, y).
    pub open spec fn index_of(self, x: int, y: int) -> int {
        y * self.width + x
    }

    pub open spec fn at(self, x: int, y: int) -> Rgba {
        self.pixels[self.index_of(x, y)]
    }

    pub open spec fn same_size(self, other: ImageModel) -> bool {
        self.width == other.width && self.height == other.height
    }
}

/// Cell (x, y) of a `w`-wide grid lies inside the first `w * h` positions.
pub proof fn lemma_index_in_bounds(x: int, y: int, w: int, h: int)
    requires
        0 <= x < w,
        0 <= y < h,
    ensures
        0 <= y * w + x < w * h,
        y * w + x < (y + 1) * w,
{
    assert(y * w + x < w * h) by (nonlinear_arith)
        requires
            0 <= x < w,
            0 <= y < h,
    ;
    assert(0 <= y * w) by (nonlinear_arith)
        requires
            0 <= y,
            0 <= w,
    ;
    assert((y + 1) * w == y * w + w) by (nonlinear_arith);
}

/// Every position below `w * h` is the cell of one (x, y).
pub proof fn lemma_index_split(i: int, w: int, h: int)
    requires
        0 <= i < w * h,
        0 < w,
    ensures
        0 <= i % w < w,
        0 <= i / w < h,
        (i / w) * w + i % w == i,
{
    assert(i == (i / w) * w + i % w && 0 <= i % w < w) by (nonlinear_arith)
        requires
            0 < w,
    ;
    assert(0 <= i / w < h) by (nonlinear_arith)
        requires
            0 <= i < w * h,
            0 < w,
            i == (i / w) * w + i % w,
            0 <= i % w < w,
    ;
}

/// Two dimensions that fit `u32` have a product that fits `u64`.
pub proof fn lemma_area_fits(w: int, h: int)
    requires
        0 <= w <= u32::MAX,
        0 <= h <= u32::MAX,
    ensures
        0 <= w * h <= u64::MAX,
{
    assert(0 <= w * h <= u32::MAX * u32::MAX) by (nonlinear_arith)
        requires
            0 <= w <= u32::MAX,
            0 <= h <= u32::MAX,
    ;
}

/// The first `len` cells, in row-major order, of a `w`-wide grid whose cell
/// (x, y) is `f(x, y)`.
pub open spec fn grid_prefix(w: nat, len: nat, f: spec_fn(int, int) -> Rgba) -> Seq<Rgba> {
    Seq::new(len, |i: int| f(i % (w as int), i / (w as int)))
}

/// The `w` x `h` grid whose cell (x, y) is `f(x, y)`, in row-major order.
pub open spec fn grid(w: nat, h: nat, f: spec_fn(int, int) -> Rgba) -> Seq<Rgba> {
    grid_prefix(w, w * h, f)
}

/// Appending cell (x, y) to the grid's cells before it gives the cells up to it.
pub proof fn lemma_grid_push(w: nat, f: spec_fn(int, int) -> Rgba, x: int, y: int)
    requires
        0 <= x < w,
        0 <= y,
    ensures
        0 <= y * w + x,
        grid_prefix(w, (y * w + x) as nat, f).push(f(x, y)) =~= grid_prefix(w, (y * w + x + 1) as nat, f),
{
    lemma_index_in_bounds(x, y, w as int, y + 1);
    vstd::arithmetic::div_mod::lemma_fundamental_div_mod_converse(y * w + x, w as int, y, x);
}

/// A full row ends where the next begins.
pub proof fn lemma_next_row(w: nat, y: int)
    ensures
        (y + 1) * w == y * w + w,
{
    assert((y + 1) * w == y * w + w) by (nonlinear_arith);
}

/// The pixels that a flat RGBA byte buffer holds, four bytes per pixel.
pub open spec fn pixels_of_bytes(bytes: Seq<u8>) -> Seq<Rgba> {
    Seq::new(
        bytes.len() / 4,
        |i: int| Rgba { r: bytes[4 * i], g: bytes[4 * i + 1], b: bytes[4 * i + 2], a: bytes[4 * i + 3] },
    )
}

/// The flat RGBA buffer of a pixel sequence, four bytes per pixel.
pub open spec fn rgba_bytes(pixels: Seq<Rgba>) -> Seq<u8> {
    Seq::new(
        4 * pixels.len(),
        |j: int|
            {
                let p = pixels[j / 4];
                if j % 4 == 0 {
                    p.r
                } else if j % 4 == 1 {
                    p.g
                } else if j % 4 == 2 {
                    p.b
                } else {
                    p.a
                }
            },
    )
}

/// An owned raster image; `@` gives its model.
#[derive(Debug)]
pub struct RasterImage {
    width: u32,
    height: u32,
    pixels: Vec<Rgba>,
}

impl RasterImage {
    #[verifier::type_invariant]
    spec fn inv(self) -> bool {
        &&& self.pixels@.len() == self.width as nat * self.height as nat
        &&& self.pixels@.len() <= usize::MAX
    }
}

impl View for RasterImage {
    type V = ImageModel;

    closed spec fn view(&self) -> ImageModel {
        ImageModel { width: self.width as nat, height: self.height as nat, pixels: self.pixels@ }
    }
}

impl Clone for RasterImage {
    fn clone(&self) -> (r: Self)
        ensures
            r@ == self@,
    {
        proof {
            use_type_invariant(self);
        }
        let mut pixels: Vec<Rgba> = Vec::new();
        let n = self.pixels.len();
        for i in 0..n
            invariant
                n == self.pixels@.len(),
                pixels@ == self.pixels@.subrange(0, i as int),
        {
            pixels.push(self.pixels[i]);
            assert(pixels@ =~= self.pixels@.subrange(0, i + 1));
        }
        assert(pixels@ =~= self.pixels@);
        RasterImage { width: self.width, height: self.height, pixels }
    }
}

impl RasterImage {
    /// A `width` x `height` canvas filled with transparent pixels.
    pub fn new(width: u32, height: u32) -> (r: RasterImage)
        requires
            width as nat * height as nat <= usize::MAX,
        ensures
            r@.wf(),
            r@.width == width,
            r@.height == height,
            r@.pixels == Seq::new(width as nat * height as nat, |i: int| transparent()),
    {
        let n = width as usize * height as usize;
        let mut pixels: Vec<Rgba> = Vec::new();
        for i in 0..n
            invariant
                n == width as nat * height as nat,
                pixels@ == Seq::new(i as nat, |j: int| transparent()),
        {
            pixels.push(Rgba::transparent());
            assert(pixels@ =~= Seq::new((i + 1) as nat, |j: int| transparent()));
        }
        RasterImage { width, height, pixels }
    }

    /// Builds an image from its model's parts; used by the transforms of this crate.
    pub(crate) fn from_parts(width: u32, height: u32, pixels: Vec<Rgba>) -> (r: RasterImage)
        requires
            pixels@.len() <= usize::MAX,
            pixels@.len() == width as nat * height as nat,
        ensures
            r@ == (ImageModel { width: width as nat, height: height as nat, pixels: pixels@ }),
            r@.wf(),
    {
        RasterImage { width, height, pixels }
    }

    pub fn width(&self) -> (r: u32)
        ensures
            r == self@.width,
            self@.wf(),
    {
        proof {
            use_type_invariant(self);
        }
        self.width
    }

    pub fn height(&self) -> (r: u32)
        ensures
            r == self@.height,
            self@.wf(),
    {
        proof {
            use_type_invariant(self);
        }
        self.height
    }

    /// Width and height together.
    pub fn dimensions(&self) -> (r: (u32, u32))
        ensures
            r.0 == self@.width,
            r.1 == self@.height,
            self@.wf(),
    {
        (self.width(), self.height())
    }

    /// The pixels in row-major order.
    pub fn pixels(&self) -> (r: &Vec<Rgba>)
        ensures
            r@ == self@.pixels,
            self@.wf(),
    {
        proof {
            use_type_invariant(self);
        }
        &self.pixels
    }

    /// The pixel at column `x`, row `y`.
    pub fn get_pixel(&self, x: u32, y: u32) -> (r: Rgba)
        requires
            self@.in_bounds(x as int, y as int),
        ensures
            r == self@.at(x as int, y as int),
    {
        proof {
            use_type_invariant(self);
            lemma_index_in_bounds(x as int, y as int, self.width as int, self.height as int);
        }
        self.pixels[y as usize * self.width as usize + x as usize]
    }

    /// Overwrites the pixel at column `x`, row `y`.
    pub fn put_pixel(&mut self, x: u32, y: u32, pixel: Rgba)
        requires
            old(self)@.in_bounds(x as int, y as int),
        ensures
            final(self)@.width == old(self)@.width,
            final(self)@.height == old(self)@.height,
            final(self)@.pixels == old(self)@.pixels.update(old(self)@.index_of(x as int, y as int), pixel),
    {
        proof {
            use_type_invariant(&*self);
            lemma_index_in_bounds(x as int, y as int, self.width as int, self.height as int);
        }
        let mut taken = RasterImage { width: 0, height: 0, pixels: Vec::new() };
        std::mem::swap(self, &mut taken);
        let RasterImage { width, height, mut pixels } = taken;
        let i = y as usize * width as usize + x as usize;
        pixels.set(i, pixel);
        *self = RasterImage { width, height, pixels };
    }

    /// Builds an image from a flat RGBA buffer, four bytes per pixel in
    /// row-major order; `None` when the buffer length is not `4 * width * height`.
    pub fn from_rgba_bytes(width: u32, height: u32, bytes: &Vec<u8>) -> (r: Option<RasterImage>)
        ensures
            r is Some <==> bytes@.len() == 4 * (width as nat * height as nat),
            r matches Some(img) ==> img@.wf(),
            r matches Some(img) ==> img@ == (ImageModel {
                width: width as nat,
                height: height as nat,
                pixels: pixels_of_bytes(bytes@),
            }),
    {
        proof {
            lemma_area_fits(width as int, height as int);
        }
        let area = width as u64 * height as u64;
        let len = bytes.len();
        if len % 4 != 0 || (len / 4) as u64 != area {
            return None;
        }
        let n = len / 4;
        let ghost want = pixels_of_bytes(bytes@);
        let mut pixels: Vec<Rgba> = Vec::new();
        for i in 0..n
            invariant
                n == bytes@.len() / 4,
                len == bytes@.len(),
                n == width as nat * height as nat,
                bytes@.len() == 4 * n,
                want == pixels_of_bytes(bytes@),
                pixels@ == want.subrange(0, i as int),
        {
            let p = Rgba { r: bytes[4 * i], g: bytes[4 * i + 1], b: bytes[4 * i + 2], a: bytes[4 * i + 3] };
            pixels.push(p);
            assert(pixels@ =~= want.subrange(0, i + 1));
        }
        assert(pixels@ =~= want);
        Some(RasterImage { width, height, pixels })
    }

    /// The flat RGBA buffer of this image, four bytes per pixel in row-major order.
    pub fn to_rgba_bytes(&self) -> (r: Vec<u8>)
        ensures
            r@ == rgba_bytes(self@.pixels),
            pixels_of_bytes(r@) == self@.pixels,
    {
        let n = self.pixels.len();
        let mut bytes: Vec<u8> = Vec::new();
        for i in 0..n
            invariant
                n == self.pixels@.len(),
                bytes@.len() == 4 * i,
                forall|j: int|
                    0 <= j < i ==> (#[trigger] self.pixels@[j]) == (Rgba {
                        r: bytes@[4 * j],
                        g: bytes@[4 * j + 1],
                        b: bytes@[4 * j + 2],
                        a: bytes@[4 * j + 3],
                    }),
        {
            let p = self.pixels[i];
            bytes.push(p.r);
            bytes.push(p.g);
            bytes.push(p.b);
            bytes.push(p.a);
        }
        assert(pixels_of_bytes(bytes@) =~= self.pixels@);
        assert forall|j: int| 0 <= j < bytes@.len() implies bytes@[j] == #[trigger] rgba_bytes(self.pixels@)[j] by {
            let k = j / 4;
            assert(self.pixels@[k] == Rgba { r: bytes@[4 * k], g: bytes@[4 * k + 1], b: bytes@[4 * k + 2], a: bytes@[4 * k + 3] });
        }
        assert(bytes@ =~= rgba_bytes(self.pixels@));
        bytes
    }
}

} // verus!
