//! Text-art rendering: sample the image on a grid and print each sample as
//! one character of a density ramp.
use vstd::prelude::*;
use crate::raster::{ImageModel, RasterImage, Rgba};

verus! {

/// The ramp, lightest first: "", ".", ",", "-", "~", "+", "=", "@".
pub open spec fn ramp(index: int) -> Seq<char> {
    if index == 0 {
        seq![]
    } else if index == 1 {
        seq!['.']
    } else if index == 2 {
        seq![',']
    } else if index == 3 {
        seq!['-']
    } else if index == 4 {
        seq!['~']
    } else if index == 5 {
        seq!['+']
    } else if index == 6 {
        seq!['=']
    } else {
        seq!['@']
    }
}

/// Brightness of a sample: each colour channel divided by three, then summed;
/// a fully transparent sample counts as zero.
pub open spec fn intensity(p: Rgba) -> u8 {
    if p.a == 0 {
        0
    } else {
        (p.r / 3 + p.g / 3 + p.b / 3) as u8
    }
}

/// The ramp character for an intensity: one step per 32 levels.
pub open spec fn ramp_for(intent: u8) -> Seq<char> {
    ramp(intent as int / 32)
}

/// The ramp character for `intent`.
pub fn get_str_ascii(intent: u8) -> (r: &'static str)
    ensures
        r@ == ramp_for(intent),
        r.is_ascii(),
{
    let index = intent / 32;
    if index == 0 {
        proof {
            reveal_strlit("");
        }
        ""
    } else if index == 1 {
        proof {
            reveal_strlit(".");
        }
        "."
    } else if index == 2 {
        proof {
            reveal_strlit(",");
        }
        ","
    } else if index == 3 {
        proof {
            reveal_strlit("-");
        }
        "-"
    } else if index == 4 {
        proof {
            reveal_strlit("~");
        }
        "~"
    } else if index == 5 {
        proof {
            reveal_strlit("+");
        }
        "+"
    } else if index == 6 {
        proof {
            reveal_strlit("=");
        }
        "="
    } else {
        proof {
            reveal_strlit("@");
        }
        "@"
    }
}

/// The ramp character for `intent`, as bytes.
pub fn get_byte_ascii<'a>(intent: u8) -> (r: &'a [u8])
    ensures
        r@ == ramp_for(intent).map_values(|c: char| c as u8),
{
    let s = get_str_ascii(intent);
    proof {
        vstd::string::is_ascii_spec_bytes(s);
    }
    let r = s.as_bytes();
    assert(r@ =~= ramp_for(intent).map_values(|c: char| c as u8));
    r
}

/// The brightness of one sample.
pub fn intensity_of(p: Rgba) -> (r: u8)
    ensures
        r == intensity(p),
{
    if p.a == 0 {
        0
    } else {
        p.r / 3 + p.g / 3 + p.b / 3
    }
}

/// Characters of the sampled columns among the first `n` of row `y`.
pub open spec fn row_cells(img: ImageModel, y: int, scale: nat, n: nat) -> Seq<char>
    decreases n,
{
    if n == 0 {
        seq![]
    } else {
        row_cells(img, y, scale, (n - 1) as nat) + if (n - 1) % (scale as int) == 0 {
            ramp_for(intensity(img.at(n - 1, y)))
        } else {
            seq![]
        }
    }
}

/// The text of row `y`: on a sampled row its sampled columns then a newline,
/// on any other row nothing. Rows are sampled every `2 * scale`, columns every
/// `scale`.
pub open spec fn art_line(img: ImageModel, y: int, scale: nat) -> Seq<char> {
    if y % (2 * scale as int) == 0 {
        row_cells(img, y, scale, img.width) + seq!['\n']
    } else {
        seq![]
    }
}

/// The text of the first `n` rows.
pub open spec fn art_rows(img: ImageModel, scale: nat, n: nat) -> Seq<char>
    decreases n,
{
    if n == 0 {
        seq![]
    } else {
        art_rows(img, scale, (n - 1) as nat) + art_line(img, n - 1, scale)
    }
}

/// The whole text art of an image.
pub open spec fn art_text(img: ImageModel, scale: nat) -> Seq<char> {
    art_rows(img, scale, img.height)
}

/// The text that row `y` contributes, so that a caller can stream the art
/// one row at a time.
pub fn text_art_line(img: &RasterImage, y: u32, scale: u32) -> (r: String)
    requires
        scale >= 1,
        y < img@.height,
    ensures
        r@ == art_line(img@, y as int, scale as nat),
{
    let (w, h) = img.dimensions();
    let mut line = String::new();
    let step = 2 * scale as u64;
    if y as u64 % step != 0 {
        return line;
    }
    let mut x: u32 = 0;
    while x < w
        invariant
            x <= w,
            w == img@.width,
            h == img@.height,
            y < h,
            scale >= 1,
            img@.wf(),
            line@ == row_cells(img@, y as int, scale as nat, x as nat),
        decreases w - x,
    {
        if x % scale == 0 {
            let p = img.get_pixel(x, y);
            let cell = get_str_ascii(intensity_of(p));
            line.append(cell);
        }
        x = x + 1;
    }
    line.append("\n");
    proof {
        reveal_strlit("\n");
    }
    line
}

/// Renders the whole image as text art with sampling stride `scale`.
pub fn text_art(img: &RasterImage, scale: u32) -> (r: String)
    requires
        scale >= 1,
    ensures
        r@ == art_text(img@, scale as nat),
{
    let h = img.height();
    let mut out = String::new();
    let mut y: u32 = 0;
    while y < h
        invariant
            y <= h,
            h == img@.height,
            scale >= 1,
            out@ == art_rows(img@, scale as nat, y as nat),
        decreases h - y,
    {
        let line = text_art_line(img, y, scale);
        out.append(line.as_str());
        y = y + 1;
    }
    out
}

} // verus!
