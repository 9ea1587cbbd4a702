//! Decoding and encoding of standard raster formats, through the image crate.
use vstd::prelude::*;
use image::ImageEncoder;
use crate::error::Error;
use crate::raster::{ImageModel, RasterImage, rgba_bytes};
use crate::save_format::SaveFormat;

verus! {

/// The PNG file that image's `PngEncoder` writes for an RGBA buffer, or
/// nothing when it refuses the buffer.
pub uninterp spec fn png_encoded(rgba: Seq<u8>, width: u32, height: u32) -> Option<Seq<u8>>;

/// The JPEG file that image's `JpegEncoder` writes for an RGBA buffer, or
/// nothing when it refuses the buffer.
pub uninterp spec fn jpeg_encoded(rgba: Seq<u8>, width: u32, height: u32) -> Option<Seq<u8>>;

/// Relies on image's `load_from_memory` (format guessed from the bytes) and
/// `DynamicImage::to_rgba8`, whose buffer holds four bytes per pixel. Some
/// decoders pick their arithmetic by CPU feature, so nothing more is claimed
/// of the pixels.
#[verifier::external_body]
fn load_rgba(bytes: &[u8]) -> (r: Result<(u32, u32, Vec<u8>), String>)
    ensures
        r matches Ok((w, h, data)) ==> data@.len() == 4 * (w as nat * h as nat),
{
    match image::load_from_memory(bytes) {
        Ok(img) => {
            let rgba = img.to_rgba8();
            Ok((rgba.width(), rgba.height(), rgba.into_raw()))
        },
        Err(e) => Err(e.to_string()),
    }
}

/// Relies on image's `PngEncoder::write_image` with `ColorType::Rgba8`, which
/// asserts the buffer length and writes a PNG determined by its inputs; the
/// png crate's header check refuses a zero width or height.
#[verifier::external_body]
fn write_png(rgba: &[u8], width: u32, height: u32) -> (r: Result<Vec<u8>, String>)
    requires
        rgba@.len() == 4 * (width as nat * height as nat),
    ensures
        r is Ok <==> png_encoded(rgba@, width, height) is Some,
        r matches Ok(out) ==> png_encoded(rgba@, width, height) == Some(out@),
        width == 0 || height == 0 ==> r is Err,
{
    let mut out: Vec<u8> = Vec::new();
    let encoder = image::codecs::png::PngEncoder::new(&mut out);
    match encoder.write_image(rgba, width, height, image::ColorType::Rgba8) {
        Ok(()) => Ok(out),
        Err(e) => Err(e.to_string()),
    }
}

/// Relies on image's `JpegEncoder::write_image` with `ColorType::Rgba8`, which
/// asserts the buffer length and writes a JPEG determined by its inputs; its
/// frame header refuses a side above 65535.
#[verifier::external_body]
fn write_jpeg(rgba: &[u8], width: u32, height: u32) -> (r: Result<Vec<u8>, String>)
    requires
        rgba@.len() == 4 * (width as nat * height as nat),
    ensures
        r is Ok <==> jpeg_encoded(rgba@, width, height) is Some,
        r matches Ok(out) ==> jpeg_encoded(rgba@, width, height) == Some(out@),
        width > 65535 || height > 65535 ==> r is Err,
{
    let mut out: Vec<u8> = Vec::new();
    let encoder = image::codecs::jpeg::JpegEncoder::new(&mut out);
    match encoder.write_image(rgba, width, height, image::ColorType::Rgba8) {
        Ok(()) => Ok(out),
        Err(e) => Err(e.to_string()),
    }
}

/// The bytes of `img` encoded in `format`, or nothing when the encoder
/// refuses it.
pub open spec fn encoded(img: ImageModel, format: SaveFormat) -> Option<Seq<u8>> {
    match format {
        SaveFormat::Png => png_encoded(rgba_bytes(img.pixels), img.width as u32, img.height as u32),
        SaveFormat::Jpeg => jpeg_encoded(rgba_bytes(img.pixels), img.width as u32, img.height as u32),
    }
}

/// Decodes an encoded image (PNG, JPEG and the other formats the image crate
/// reads, recognised by their signature); `ImageError` with the codec's
/// message when it cannot. The pixels are the decoder's; they reach the
/// library through [`RasterImage::from_rgba_bytes`].
pub fn get_dynamic_image(bytes: &[u8]) -> (r: Result<RasterImage, Error>)
    ensures
        r matches Ok(img) ==> img@.wf(),
        r is Err ==> r->Err_0 is ImageError,
{
    match load_rgba(bytes) {
        Ok((w, h, data)) => match RasterImage::from_rgba_bytes(w, h, &data) {
            Some(img) => Ok(img),
            None => {
                proof {
                    assert(false);
                }
                Err(Error::ImageError(String::new()))
            },
        },
        Err(message) => Err(Error::ImageError(message)),
    }
}

/// Encodes an image in `format`; `ImageError` with the codec's message when
/// the encoder refuses (PNG refuses an empty side, JPEG a side above 65535).
pub fn encode_image(img: &RasterImage, format: SaveFormat) -> (r: Result<Vec<u8>, Error>)
    ensures
        r is Ok <==> encoded(img@, format) is Some,
        r matches Ok(out) ==> encoded(img@, format) == Some(out@),
        r is Err ==> r->Err_0 is ImageError,
        format == SaveFormat::Png && (img@.width == 0 || img@.height == 0) ==> r is Err,
        format == SaveFormat::Jpeg && (img@.width > 65535 || img@.height > 65535) ==> r is Err,
{
    let (w, h) = img.dimensions();
    let rgba = img.to_rgba_bytes();
    let written = match format {
        SaveFormat::Png => write_png(rgba.as_slice(), w, h),
        SaveFormat::Jpeg => write_jpeg(rgba.as_slice(), w, h),
    };
    match written {
        Ok(out) => Ok(out),
        Err(message) => Err(Error::ImageError(message)),
    }
}

} // verus!
