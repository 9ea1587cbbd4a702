//! The transform engine: pure pixel and placement operations on rasters.
use vstd::prelude::*;
use image::Pixel;
use crate::error::Error;
use crate::raster::{
    ImageModel, RasterImage, Rgba, grid, grid_prefix, lemma_grid_push, lemma_next_row, pixels_of_bytes,
    transparent,
};

verus! {

/// Luminance of a pixel with the sRGB weights 2126, 7152 and 722 over 10000,
/// rounded down.
pub open spec fn luma(p: Rgba) -> u8 {
    ((2126 * p.r + 7152 * p.g + 722 * p.b) / 10000) as u8
}

/// A pixel's gray counterpart: every colour channel is its luminance.
pub open spec fn gray_pixel(p: Rgba) -> Rgba {
    Rgba { r: luma(p), g: luma(p), b: luma(p), a: p.a }
}

/// A pixel with each colour channel replaced by 255 minus itself.
pub open spec fn inverted_pixel(p: Rgba) -> Rgba {
    Rgba { r: (255 - p.r) as u8, g: (255 - p.g) as u8, b: (255 - p.b) as u8, a: p.a }
}

pub open spec fn saturating(x: u8, y: u8) -> u8 {
    if x + y > 255 {
        255
    } else {
        (x + y) as u8
    }
}

/// Channel-wise saturating sum of two pixels.
pub open spec fn added_pixel(p: Rgba, q: Rgba) -> Rgba {
    Rgba { r: saturating(p.r, q.r), g: saturating(p.g, q.g), b: saturating(p.b, q.b), a: saturating(p.a, q.a) }
}

/// Channel-wise bitwise AND of two pixels.
pub open spec fn and_pixel(p: Rgba, q: Rgba) -> Rgba {
    Rgba { r: p.r & q.r, g: p.g & q.g, b: p.b & q.b, a: p.a & q.a }
}

pub open spec fn black() -> Rgba {
    Rgba { r: 0, g: 0, b: 0, a: 255 }
}

pub open spec fn white() -> Rgba {
    Rgba { r: 255, g: 255, b: 255, a: 255 }
}

/// Mask colour of a pixel: black when its luminance exceeds `cut`, else white.
pub open spec fn threshold_pixel(p: Rgba, cut: u8) -> Rgba {
    if luma(p) > cut {
        black()
    } else {
        white()
    }
}

/// Model of the grayscale of an image.
pub open spec fn grayscaled(m: ImageModel) -> ImageModel {
    ImageModel { width: m.width, height: m.height, pixels: m.pixels.map_values(|p: Rgba| gray_pixel(p)) }
}

/// Model of the inverse of an image.
pub open spec fn inverted(m: ImageModel) -> ImageModel {
    ImageModel { width: m.width, height: m.height, pixels: m.pixels.map_values(|p: Rgba| inverted_pixel(p)) }
}

/// Model of the threshold mask of an image at luminance cut `cut`.
pub open spec fn thresholded(m: ImageModel, cut: u8) -> ImageModel {
    ImageModel { width: m.width, height: m.height, pixels: m.pixels.map_values(|p: Rgba| threshold_pixel(p, cut)) }
}

/// Inverting an image twice gives back the same image: the colour channels
/// are restored and the alpha channel is never touched.
pub proof fn lemma_invert_twice(img: ImageModel)
    ensures
        inverted(inverted(img)) == img,
{
    assert(inverted(inverted(img)).pixels =~= img.pixels);
}

/// The luminance cut used for masks unless a caller picks another.
pub const DEFAULT_THRESHOLD: u8 = 127;

/// Relies on image's `Pixel::to_luma_alpha` for `Rgba<u8>`: the luminance is
/// `(2126 r + 7152 g + 722 b) / 10000` in `u32`, and the alpha is copied.
#[verifier::external_body]
fn to_luma_alpha(p: Rgba) -> (r: (u8, u8))
    ensures
        r.0 == luma(p),
        r.1 == p.a,
{
    let la = image::Rgba([p.r, p.g, p.b, p.a]).to_luma_alpha();
    (la[0], la[1])
}

/// Relies on image's `Pixel::invert` for `Rgba<u8>`: each colour channel
/// becomes 255 minus itself and the alpha is kept.
#[verifier::external_body]
fn invert_rgba(p: Rgba) -> (r: Rgba)
    ensures
        r == inverted_pixel(p),
{
    let mut q = image::Rgba([p.r, p.g, p.b, p.a]);
    q.invert();
    Rgba { r: q[0], g: q[1], b: q[2], a: q[3] }
}

/// The gray pixel of `p`, through the image crate's luminance.
pub fn gray_of(p: Rgba) -> (r: Rgba)
    ensures
        r == gray_pixel(p),
{
    let (l, a) = to_luma_alpha(p);
    Rgba { r: l, g: l, b: l, a }
}

/// Grayscale conversion: each pixel becomes its luminance on all three
/// colour channels; alpha and size are kept.
pub fn grayscale(img: &RasterImage) -> (r: RasterImage)
    ensures
        r@.wf(),
        r@ == grayscaled(img@),
        forall|i: int|
            0 <= i < r@.pixels.len() ==> {
                let q = #[trigger] r@.pixels[i];
                q.r == q.g && q.g == q.b && q.a == img@.pixels[i].a
            },
{
    let (w, h) = img.dimensions();
    let src = img.pixels();
    let n = src.len();
    let mut out: Vec<Rgba> = Vec::new();
    for i in 0..n
        invariant
            n == src@.len(),
            out@ == src@.subrange(0, i as int).map_values(|p: Rgba| gray_pixel(p)),
    {
        out.push(gray_of(src[i]));
        assert(out@ =~= src@.subrange(0, i + 1).map_values(|p: Rgba| gray_pixel(p)));
    }
    assert(src@.subrange(0, n as int) =~= src@);
    RasterImage::from_parts(w, h, out)
}

/// Inversion: each colour channel becomes 255 minus itself; alpha and size
/// are kept.
pub fn invert(img: &RasterImage) -> (r: RasterImage)
    ensures
        r@.wf(),
        r@ == inverted(img@),
{
    let (w, h) = img.dimensions();
    let src = img.pixels();
    let n = src.len();
    let mut out: Vec<Rgba> = Vec::new();
    for i in 0..n
        invariant
            n == src@.len(),
            out@ == src@.subrange(0, i as int).map_values(|p: Rgba| inverted_pixel(p)),
    {
        out.push(invert_rgba(src[i]));
        assert(out@ =~= src@.subrange(0, i + 1).map_values(|p: Rgba| inverted_pixel(p)));
    }
    assert(src@.subrange(0, n as int) =~= src@);
    RasterImage::from_parts(w, h, out)
}

/// Threshold mask: a pixel becomes opaque black when its luminance exceeds
/// `cut` and opaque white otherwise; size is kept.
pub fn threshold(img: &RasterImage, cut: u8) -> (r: RasterImage)
    ensures
        r@.wf(),
        r@ == thresholded(img@, cut),
        forall|i: int| 0 <= i < r@.pixels.len() ==> #[trigger] r@.pixels[i] == black() || r@.pixels[i] == white(),
{
    let gray = grayscale(img);
    let (w, h) = gray.dimensions();
    let src = gray.pixels();
    let n = src.len();
    let mut out: Vec<Rgba> = Vec::new();
    for i in 0..n
        invariant
            n == src@.len(),
            src@ == img@.pixels.map_values(|p: Rgba| gray_pixel(p)),
            out@ == img@.pixels.subrange(0, i as int).map_values(|p: Rgba| threshold_pixel(p, cut)),
    {
        let p = src[i];
        if p.r > cut {
            out.push(Rgba { r: 0, g: 0, b: 0, a: 255 });
        } else {
            out.push(Rgba { r: 255, g: 255, b: 255, a: 255 });
        }
        assert(out@ =~= img@.pixels.subrange(0, i + 1).map_values(|p: Rgba| threshold_pixel(p, cut)));
    }
    assert(img@.pixels.subrange(0, n as int) =~= img@.pixels);
    RasterImage::from_parts(w, h, out)
}

/// A threshold mask and its inverse: the foreground mask first, then the
/// background mask with black and white swapped.
pub fn create_mask(img: &RasterImage, cut: u8) -> (r: (RasterImage, RasterImage))
    ensures
        r.0@.wf(),
        r.1@.wf(),
        r.0@ == thresholded(img@, cut),
        r.1@ == inverted(thresholded(img@, cut)),
{
    let mask = threshold(img, cut);
    let mask_inv = invert(&mask);
    (mask, mask_inv)
}

/// Saturating addition of two images of the same size, channel by channel
/// (alpha included); `WidthHeightNotEqualError` when the sizes differ.
pub fn add(img1: &RasterImage, img2: &RasterImage) -> (r: Result<RasterImage, Error>)
    ensures
        r is Ok <==> img1@.same_size(img2@),
        r is Err ==> r->Err_0 is WidthHeightNotEqualError,
        r is Ok ==> r->Ok_0@.same_size(img1@) && r->Ok_0@.wf(),
        r is Ok ==> forall|i: int|
            0 <= i < img1@.pixels.len() ==> #[trigger] r->Ok_0@.pixels[i] == added_pixel(
                img1@.pixels[i],
                img2@.pixels[i],
            ),
        r is Ok ==> r->Ok_0@.pixels.len() == img1@.pixels.len(),
{
    let (w1, h1) = img1.dimensions();
    let (w2, h2) = img2.dimensions();
    if w1 != w2 || h1 != h2 {
        return Err(Error::WidthHeightNotEqualError);
    }
    let a = img1.pixels();
    let b = img2.pixels();
    let n = a.len();
    let mut out: Vec<Rgba> = Vec::new();
    for i in 0..n
        invariant
            n == a@.len(),
            n == b@.len(),
            out@.len() == i,
            forall|j: int| 0 <= j < i ==> #[trigger] out@[j] == added_pixel(a@[j], b@[j]),
    {
        let p = a[i];
        let q = b[i];
        out.push(
            Rgba {
                r: p.r.saturating_add(q.r),
                g: p.g.saturating_add(q.g),
                b: p.b.saturating_add(q.b),
                a: p.a.saturating_add(q.a),
            },
        );
    }
    Ok(RasterImage::from_parts(w1, h1, out))
}

/// Bitwise AND of an image and a mask of the same size, channel by channel
/// (alpha included); `WidthHeightNotEqualError` when the sizes differ.
pub fn bitwise_and(src: &RasterImage, mask: &RasterImage) -> (r: Result<RasterImage, Error>)
    ensures
        r is Ok <==> src@.same_size(mask@),
        r is Err ==> r->Err_0 is WidthHeightNotEqualError,
        r is Ok ==> r->Ok_0@.same_size(src@) && r->Ok_0@.wf(),
        r is Ok ==> forall|i: int|
            0 <= i < src@.pixels.len() ==> #[trigger] r->Ok_0@.pixels[i] == and_pixel(
                src@.pixels[i],
                mask@.pixels[i],
            ),
        r is Ok ==> r->Ok_0@.pixels.len() == src@.pixels.len(),
{
    let (w1, h1) = src.dimensions();
    let (w2, h2) = mask.dimensions();
    if w1 != w2 || h1 != h2 {
        return Err(Error::WidthHeightNotEqualError);
    }
    let a = src.pixels();
    let b = mask.pixels();
    let n = a.len();
    let mut out: Vec<Rgba> = Vec::new();
    for i in 0..n
        invariant
            n == a@.len(),
            n == b@.len(),
            out@.len() == i,
            forall|j: int| 0 <= j < i ==> #[trigger] out@[j] == and_pixel(a@[j], b@[j]),
    {
        let p = a[i];
        let q = b[i];
        out.push(Rgba { r: p.r & q.r, g: p.g & q.g, b: p.b & q.b, a: p.a & q.a });
    }
    Ok(RasterImage::from_parts(w1, h1, out))
}

/// Cell (x, y) of a crop of `canvas`: the canvas's pixel where it has that
/// cell, transparent elsewhere.
pub open spec fn cropped_cell(canvas: ImageModel, x: int, y: int) -> Rgba {
    if canvas.in_bounds(x, y) {
        canvas.at(x, y)
    } else {
        transparent()
    }
}

/// Cell (x, y) of `base` with `overlay` placed over its top-left corner.
pub open spec fn overlaid_cell(base: ImageModel, overlay: ImageModel, x: int, y: int) -> Rgba {
    if overlay.in_bounds(x, y) {
        overlay.at(x, y)
    } else {
        base.at(x, y)
    }
}

/// The part of `canvas` that a `logo` would cover when placed at the top-left
/// corner: an image of the logo's size whose cells come from the canvas; cells
/// that the canvas lacks stay transparent.
pub fn resize_from(canvas: &RasterImage, logo: &RasterImage) -> (r: RasterImage)
    ensures
        r@.wf(),
        r@.same_size(logo@),
        r@.pixels == grid(logo@.width, logo@.height, |x: int, y: int| cropped_cell(canvas@, x, y)),
{
    let (w, h) = logo.dimensions();
    let (cw, ch) = canvas.dimensions();
    let ghost f = |x: int, y: int| cropped_cell(canvas@, x, y);
    let mut out: Vec<Rgba> = Vec::new();
    let mut y: u32 = 0;
    while y < h
        invariant
            y <= h,
            w == logo@.width,
            h == logo@.height,
            cw == canvas@.width,
            ch == canvas@.height,
            logo@.wf(),
            canvas@.wf(),
            f == (|x: int, y: int| cropped_cell(canvas@, x, y)),
            out@ == grid_prefix(w as nat, (y * w) as nat, f),
        decreases h - y,
    {
        let mut x: u32 = 0;
        while x < w
            invariant
                x <= w,
                y < h,
                w == logo@.width,
                h == logo@.height,
                cw == canvas@.width,
                ch == canvas@.height,
                logo@.wf(),
                canvas@.wf(),
                f == (|x: int, y: int| cropped_cell(canvas@, x, y)),
                out@ == grid_prefix(w as nat, (y * w + x) as nat, f),
            decreases w - x,
        {
            let p = if x < cw && y < ch {
                canvas.get_pixel(x, y)
            } else {
                Rgba::transparent()
            };
            proof {
                lemma_grid_push(w as nat, f, x as int, y as int);
                crate::raster::lemma_index_in_bounds(x as int, y as int, w as int, h as int);
            }
            out.push(p);
            x = x + 1;
        }
        proof {
            lemma_next_row(w as nat, y as int);
        }
        y = y + 1;
    }
    assert(h as int * w as int == w as int * h as int) by (nonlinear_arith);
    RasterImage::from_parts(w, h, out)
}

/// `base` with `overlay` copied over its top-left corner, pixel for pixel
/// (no blending); overlay cells outside `base` are dropped.
pub fn transparent_overlay(base: &RasterImage, overlay: &RasterImage) -> (r: RasterImage)
    ensures
        r@.wf(),
        r@.same_size(base@),
        r@.pixels == grid(base@.width, base@.height, |x: int, y: int| overlaid_cell(base@, overlay@, x, y)),
{
    let (w, h) = base.dimensions();
    let (ow, oh) = overlay.dimensions();
    let ghost f = |x: int, y: int| overlaid_cell(base@, overlay@, x, y);
    let mut out: Vec<Rgba> = Vec::new();
    let mut y: u32 = 0;
    while y < h
        invariant
            y <= h,
            w == base@.width,
            h == base@.height,
            ow == overlay@.width,
            oh == overlay@.height,
            base@.wf(),
            overlay@.wf(),
            f == (|x: int, y: int| overlaid_cell(base@, overlay@, x, y)),
            out@ == grid_prefix(w as nat, (y * w) as nat, f),
        decreases h - y,
    {
        let mut x: u32 = 0;
        while x < w
            invariant
                x <= w,
                y < h,
                w == base@.width,
                h == base@.height,
                ow == overlay@.width,
                oh == overlay@.height,
                base@.wf(),
                overlay@.wf(),
                f == (|x: int, y: int| overlaid_cell(base@, overlay@, x, y)),
                out@ == grid_prefix(w as nat, (y * w + x) as nat, f),
            decreases w - x,
        {
            let p = if x < ow && y < oh {
                overlay.get_pixel(x, y)
            } else {
                base.get_pixel(x, y)
            };
            proof {
                lemma_grid_push(w as nat, f, x as int, y as int);
                crate::raster::lemma_index_in_bounds(x as int, y as int, w as int, h as int);
            }
            out.push(p);
            x = x + 1;
        }
        proof {
            lemma_next_row(w as nat, y as int);
        }
        y = y + 1;
    }
    assert(h as int * w as int == w as int * h as int) by (nonlinear_arith);
    RasterImage::from_parts(w, h, out)
}

/// Relies on image's `imageops::huerotate` over an `RgbaImage`: it keeps the
/// size, copies each pixel's alpha, and maps every pixel through one colour
/// matrix, so equal pixels stay equal. The matrix comes from `f64` `cos` and
/// `sin`, whose last bits may differ by platform, so the colours themselves
/// are not claimed.
#[verifier::external_body]
fn huerotate_rgba(width: u32, height: u32, rgba: Vec<u8>, degrees: i32) -> (r: Vec<u8>)
    requires
        rgba@.len() == 4 * (width as nat * height as nat),
    ensures
        r@.len() == rgba@.len(),
        forall|i: int|
            0 <= i < rgba@.len() / 4 ==> (#[trigger] pixels_of_bytes(r@)[i]).a == pixels_of_bytes(rgba@)[i].a,
        forall|i: int, j: int|
            0 <= i < rgba@.len() / 4 && 0 <= j < rgba@.len() / 4 && pixels_of_bytes(rgba@)[i] == pixels_of_bytes(
                rgba@,
            )[j] ==> #[trigger] pixels_of_bytes(r@)[i] == #[trigger] pixels_of_bytes(r@)[j],
{
    match image::RgbaImage::from_raw(width, height, rgba) {
        Some(buf) => image::imageops::huerotate(&buf, degrees).into_raw(),
        None => Vec::new(),
    }
}

/// Hue rotation by `degrees`, through the image crate: size and alpha are
/// kept, and pixels that were equal stay equal.
pub fn hue_rotate(img: &RasterImage, degrees: i32) -> (r: RasterImage)
    ensures
        r@.wf(),
        r@.same_size(img@),
        forall|i: int| 0 <= i < r@.pixels.len() ==> (#[trigger] r@.pixels[i]).a == img@.pixels[i].a,
        forall|i: int, j: int|
            0 <= i < r@.pixels.len() && 0 <= j < r@.pixels.len() && img@.pixels[i] == img@.pixels[j]
                ==> #[trigger] r@.pixels[i] == #[trigger] r@.pixels[j],
{
    let (w, h) = img.dimensions();
    let bytes = img.to_rgba_bytes();
    let ghost before = bytes@;
    let rotated = huerotate_rgba(w, h, bytes, degrees);
    assert(pixels_of_bytes(before) == img@.pixels);
    match RasterImage::from_rgba_bytes(w, h, &rotated) {
        Some(out) => out,
        None => {
            proof {
                assert(false);
            }
            RasterImage::new(0, 0)
        },
    }
}

} // verus!
