//! Geometric rotation about the image centre by inverse mapping, with
//! nearest-neighbour sampling. The angle arrives as its cosine and sine in
//! fixed point, so that every coordinate below is exact integer arithmetic.
use vstd::prelude::*;
use crate::raster::{
    ImageModel, RasterImage, Rgba, grid, grid_prefix, lemma_grid_push, lemma_index_split, lemma_next_row,
    transparent,
};
use vstd::arithmetic::div_mod::lemma_fundamental_div_mod_converse;

verus! {

/// Fixed-point scale of [`Rotation`]: `cos` and `sin` are the cosine and sine
/// of the angle times this value.
pub const ROTATION_SCALE: i32 = 65536;

/// An angle given by its cosine and sine in fixed point (see [`ROTATION_SCALE`]).
#[derive(Clone, Copy, Debug, PartialEq, Eq, Structural)]
pub struct Rotation {
    pub cos: i32,
    pub sin: i32,
}

pub open spec fn abs(v: int) -> int {
    if v < 0 {
        -v
    } else {
        v
    }
}

/// `n / d` rounded to the nearest integer, halves away from zero.
pub open spec fn round_div(n: int, d: int) -> int {
    if n >= 0 {
        (n + d / 2) / d
    } else {
        -((-n + d / 2) / d)
    }
}

/// The identity: cosine one, sine zero.
pub open spec fn identity_rotation() -> Rotation {
    Rotation { cos: ROTATION_SCALE, sin: 0 }
}

impl Rotation {
    /// No rotation at all.
    pub fn identity() -> (r: Rotation)
        ensures
            r == identity_rotation(),
    {
        Rotation { cos: ROTATION_SCALE, sin: 0 }
    }

    /// Width of the bounding box of a `w` x `h` image turned by this angle:
    /// `|cos| w + |sin| h`, rounded down.
    pub open spec fn width_for(self, w: int, h: int) -> int {
        (abs(self.cos as int) * w + abs(self.sin as int) * h) / (ROTATION_SCALE as int)
    }

    /// Height of that bounding box: `|sin| w + |cos| h`, rounded down.
    pub open spec fn height_for(self, w: int, h: int) -> int {
        (abs(self.sin as int) * w + abs(self.cos as int) * h) / (ROTATION_SCALE as int)
    }

    /// Source column of cell (x, y) of the `nw` x `nh` canvas: the offset
    /// (dx, dy) of (x, y) from the canvas centre, rotated by minus the angle
    /// (`cos dx + sin dy`) and added to the centre of the `w`-wide source,
    /// rounded to the nearest column. Centres are halves, so everything is
    /// counted in half-pixels.
    pub open spec fn source_x(self, w: int, nw: int, nh: int, x: int, y: int) -> int {
        round_div(
            self.cos * (2 * x - nw) + self.sin * (2 * y - nh) + ROTATION_SCALE * w,
            2 * ROTATION_SCALE,
        )
    }

    /// Source row of cell (x, y): the same offset rotated by minus the angle
    /// (`-sin dx + cos dy`) and added to the centre of the `h`-high source.
    pub open spec fn source_y(self, h: int, nw: int, nh: int, x: int, y: int) -> int {
        round_div(
            self.cos * (2 * y - nh) - self.sin * (2 * x - nw) + ROTATION_SCALE * h,
            2 * ROTATION_SCALE,
        )
    }

    /// Whether the turned bounding box of a `w` x `h` image can be allocated.
    pub open spec fn fits(self, w: int, h: int) -> bool {
        &&& self.width_for(w, h) <= u32::MAX
        &&& self.height_for(w, h) <= u32::MAX
        &&& self.width_for(w, h) * self.height_for(w, h) <= usize::MAX
    }
}

/// Cell (x, y) of `img` turned by `rot` onto an `nw` x `nh` canvas: the source
/// pixel where the inverse-mapped coordinate lies inside `img`, else transparent.
pub open spec fn rotated_cell(img: ImageModel, rot: Rotation, nw: int, nh: int, x: int, y: int) -> Rgba {
    let sx = rot.source_x(img.width as int, nw, nh, x, y);
    let sy = rot.source_y(img.height as int, nw, nh, x, y);
    if img.in_bounds(sx, sy) {
        img.at(sx, sy)
    } else {
        transparent()
    }
}

/// The model of `img` turned by `rot`.
pub open spec fn rotated(img: ImageModel, rot: Rotation) -> ImageModel {
    let nw = rot.width_for(img.width as int, img.height as int);
    let nh = rot.height_for(img.width as int, img.height as int);
    ImageModel {
        width: nw as nat,
        height: nh as nat,
        pixels: grid(nw as nat, nh as nat, |x: int, y: int| rotated_cell(img, rot, nw, nh, x, y)),
    }
}

fn abs_i128(v: i128) -> (r: i128)
    requires
        v > i128::MIN,
    ensures
        r == abs(v as int),
{
    if v < 0 {
        -v
    } else {
        v
    }
}

/// `n / d` rounded halves away from zero, for a positive even `d`.
fn round_div_exec(n: i128, d: i128) -> (r: i128)
    requires
        d > 0,
        d % 2 == 0,
        -0x1_0000_0000_0000_0000_0000_0000 <= n <= 0x1_0000_0000_0000_0000_0000_0000,
        d <= 0x1_0000_0000,
    ensures
        r == round_div(n as int, d as int),
{
    if n >= 0 {
        (n + d / 2) / d
    } else {
        -((-n + d / 2) / d)
    }
}

/// The size of the bounding box of a `width` x `height` image turned by `rot`.
pub fn rotated_dimensions(width: u32, height: u32, rot: Rotation) -> (r: (u64, u64))
    ensures
        r.0 == rot.width_for(width as int, height as int),
        r.1 == rot.height_for(width as int, height as int),
{
    let c = abs_i128(rot.cos as i128);
    let s = abs_i128(rot.sin as i128);
    assert(0 <= c * width <= 0x8000_0000 * 0x1_0000_0000) by (nonlinear_arith)
        requires
            0 <= c <= 0x8000_0000,
            0 <= width <= 0xffff_ffff,
    ;
    assert(0 <= s * height <= 0x8000_0000 * 0x1_0000_0000) by (nonlinear_arith)
        requires
            0 <= s <= 0x8000_0000,
            0 <= height <= 0xffff_ffff,
    ;
    assert(0 <= s * width <= 0x8000_0000 * 0x1_0000_0000) by (nonlinear_arith)
        requires
            0 <= s <= 0x8000_0000,
            0 <= width <= 0xffff_ffff,
    ;
    assert(0 <= c * height <= 0x8000_0000 * 0x1_0000_0000) by (nonlinear_arith)
        requires
            0 <= c <= 0x8000_0000,
            0 <= height <= 0xffff_ffff,
    ;
    let nw = (c * width as i128 + s * height as i128) / ROTATION_SCALE as i128;
    let nh = (s * width as i128 + c * height as i128) / ROTATION_SCALE as i128;
    (nw as u64, nh as u64)
}

/// Rotation about the centre by inverse mapping: the canvas is the turned
/// bounding box, and each cell takes the nearest source pixel that maps onto
/// it, or stays transparent where none does.
pub fn rotate(img: &RasterImage, rot: Rotation) -> (r: RasterImage)
    requires
        rot.fits(img@.width as int, img@.height as int),
    ensures
        r@.wf(),
        r@ == rotated(img@, rot),
{
    let (w, h) = img.dimensions();
    let (nw64, nh64) = rotated_dimensions(w, h, rot);
    let nw = nw64 as u32;
    let nh = nh64 as u32;
    let ghost f = |x: int, y: int| rotated_cell(img@, rot, nw as int, nh as int, x, y);
    let c = rot.cos as i128;
    let s = rot.sin as i128;
    let scale = ROTATION_SCALE as i128;
    let mut out: Vec<Rgba> = Vec::new();
    let mut y: u32 = 0;
    while y < nh
        invariant
            y <= nh,
            w == img@.width,
            h == img@.height,
            img@.wf(),
            nw == rot.width_for(w as int, h as int),
            nh == rot.height_for(w as int, h as int),
            nw as int * nh as int <= usize::MAX,
            c == rot.cos,
            s == rot.sin,
            scale == ROTATION_SCALE,
            f == (|x: int, y: int| rotated_cell(img@, rot, nw as int, nh as int, x, y)),
            out@ == grid_prefix(nw as nat, (y * nw) as nat, f),
        decreases nh - y,
    {
        let mut x: u32 = 0;
        while x < nw
            invariant
                x <= nw,
                y < nh,
                w == img@.width,
                h == img@.height,
                img@.wf(),
                nw == rot.width_for(w as int, h as int),
                nh == rot.height_for(w as int, h as int),
                nw as int * nh as int <= usize::MAX,
                c == rot.cos,
                s == rot.sin,
                scale == ROTATION_SCALE,
                f == (|x: int, y: int| rotated_cell(img@, rot, nw as int, nh as int, x, y)),
                out@ == grid_prefix(nw as nat, (y * nw + x) as nat, f),
            decreases nw - x,
        {
            let dx = 2 * x as i128 - nw as i128;
            let dy = 2 * y as i128 - nh as i128;
            assert(-0x8000_0000 * 0x2_0000_0000 <= c * dx <= 0x8000_0000 * 0x2_0000_0000) by (nonlinear_arith)
                requires
                    -0x8000_0000 <= c <= 0x8000_0000,
                    -0x2_0000_0000 <= dx <= 0x2_0000_0000,
            ;
            assert(-0x8000_0000 * 0x2_0000_0000 <= s * dy <= 0x8000_0000 * 0x2_0000_0000) by (nonlinear_arith)
                requires
                    -0x8000_0000 <= s <= 0x8000_0000,
                    -0x2_0000_0000 <= dy <= 0x2_0000_0000,
            ;
            assert(-0x8000_0000 * 0x2_0000_0000 <= s * dx <= 0x8000_0000 * 0x2_0000_0000) by (nonlinear_arith)
                requires
                    -0x8000_0000 <= s <= 0x8000_0000,
                    -0x2_0000_0000 <= dx <= 0x2_0000_0000,
            ;
            assert(-0x8000_0000 * 0x2_0000_0000 <= c * dy <= 0x8000_0000 * 0x2_0000_0000) by (nonlinear_arith)
                requires
                    -0x8000_0000 <= c <= 0x8000_0000,
                    -0x2_0000_0000 <= dy <= 0x2_0000_0000,
            ;
            let sx = round_div_exec(c * dx + s * dy + scale * w as i128, 2 * scale);
            let sy = round_div_exec(c * dy - s * dx + scale * h as i128, 2 * scale);
            let p = if 0 <= sx && sx < w as i128 && 0 <= sy && sy < h as i128 {
                img.get_pixel(sx as u32, sy as u32)
            } else {
                Rgba::transparent()
            };
            proof {
                lemma_grid_push(nw as nat, f, x as int, y as int);
                crate::raster::lemma_index_in_bounds(x as int, y as int, nw as int, nh as int);
            }
            out.push(p);
            x = x + 1;
        }
        proof {
            lemma_next_row(nw as nat, y as int);
        }
        y = y + 1;
    }
    assert(nh as int * nw as int == nw as int * nh as int) by (nonlinear_arith);
    RasterImage::from_parts(nw, nh, out)
}

/// Turning an image by the identity rotation (the fixed-point form of 0°, and
/// of every whole number of turns) gives back the same size and, cell for
/// cell, the same pixels.
pub proof fn lemma_rotate_identity(img: ImageModel)
    requires
        img.wf(),
    ensures
        rotated(img, identity_rotation()) == img,
{
    let rot = identity_rotation();
    let w = img.width as int;
    let h = img.height as int;
    assert(ROTATION_SCALE == 65536);
    assert(abs(rot.cos as int) == 65536);
    assert(abs(rot.sin as int) == 0);
    let z = abs(rot.sin as int);
    assert(z * h == 0 && z * w == 0) by (nonlinear_arith)
        requires
            z == 0,
    ;
    lemma_fundamental_div_mod_converse(65536 * w, 65536, w, 0);
    lemma_fundamental_div_mod_converse(65536 * h, 65536, h, 0);
    assert(rot.width_for(w, h) == w);
    assert(rot.height_for(w, h) == h);
    let r = rotated(img, rot);
    assert forall|i: int| 0 <= i < r.pixels.len() implies r.pixels[i] == img.pixels[i] by {
        assert(w > 0) by (nonlinear_arith)
            requires
                0 <= i < w * h,
                w >= 0,
                h >= 0,
        ;
        lemma_index_split(i, w, h);
        let x = i % w;
        let y = i / w;
        lemma_fundamental_div_mod_converse(131072 * x + 65536, 131072, x, 65536);
        lemma_fundamental_div_mod_converse(131072 * y + 65536, 131072, y, 65536);
        assert(rot.source_x(w, w, h, x, y) == x);
        assert(rot.source_y(h, w, h, x, y) == y);
    }
    assert(r.pixels =~= img.pixels);
}

} // verus!
