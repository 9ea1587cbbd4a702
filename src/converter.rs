//! The editing session: the current source, the output format, the latest
//! result and the last mask. Each transform reads a decoded source and
//! returns a new image; the session moves on only once a result has been
//! persisted, so a failed step leaves it where it was.
use vstd::prelude::*;
use crate::artifact::{resolve, resolved};
use crate::codec::{encode_image, encoded};
use crate::error::Error;
use crate::raster::{ImageModel, RasterImage, grid};
use crate::rotation::{Rotation, rotate, rotated};
use crate::save_format::{SaveFormat, extension_of};
use crate::text_art::{art_text, text_art};
use crate::transform::{
    DEFAULT_THRESHOLD, added_pixel, and_pixel, bitwise_and, create_mask, cropped_cell, grayscale, grayscaled,
    hue_rotate, inverted, invert, overlaid_cell, resize_from, thresholded, threshold,
    transparent_overlay,
};

verus! {

/// Model of a session.
pub struct ConverterModel {
    /// Path of the latest persisted result, if any.
    pub temp: Option<Seq<char>>,
    /// Path of the image the next transform reads.
    pub source: Seq<char>,
    pub format: SaveFormat,
    /// The foreground mask last built, if any.
    pub mask: Option<ImageModel>,
}

/// An editing session.
#[derive(Debug, Clone)]
pub struct ImageConverter {
    temp_converted_image_path: Option<String>,
    orgin_image_path: String,
    pub save_format: SaveFormat,
    mask: Option<RasterImage>,
}

impl View for ImageConverter {
    type V = ConverterModel;

    closed spec fn view(&self) -> ConverterModel {
        ConverterModel {
            temp: match self.temp_converted_image_path {
                Some(p) => Some(p@),
                None => None,
            },
            source: self.orgin_image_path@,
            format: self.save_format,
            mask: match self.mask {
                Some(m) => Some(m@),
                None => None,
            },
        }
    }
}

impl Default for ImageConverter {
    fn default() -> (r: ImageConverter)
        ensures
            r@ == (ConverterModel { temp: None, source: seq![], format: SaveFormat::Png, mask: None }),
    {
        ImageConverter::new()
    }
}

impl ImageConverter {
    /// A session with no source, no result, no mask, and PNG output.
    pub fn new() -> (r: ImageConverter)
        ensures
            r@ == (ConverterModel { temp: None, source: seq![], format: SaveFormat::Png, mask: None }),
    {
        ImageConverter {
            temp_converted_image_path: None,
            orgin_image_path: String::new(),
            save_format: SaveFormat::Png,
            mask: None,
        }
    }

    /// Makes `image_path` the image the next transform reads.
    pub fn set_image_path(&mut self, image_path: String)
        ensures
            final(self)@ == (ConverterModel { source: image_path@, ..old(self)@ }),
    {
        self.orgin_image_path = image_path;
    }

    /// The path of the image the next transform reads.
    pub fn image_path(&self) -> (r: String)
        ensures
            r@ == self@.source,
    {
        self.orgin_image_path.clone()
    }

    /// The path of the latest persisted result, if any.
    pub fn get_temp_result_path(&self) -> (r: Option<String>)
        ensures
            r is Some <==> self@.temp is Some,
            r matches Some(p) ==> self@.temp == Some(p@),
    {
        match &self.temp_converted_image_path {
            Some(p) => Some(p.clone()),
            None => None,
        }
    }

    /// Whether a result has been persisted yet.
    pub fn is_result_temp_path(&self) -> (r: bool)
        ensures
            r == self@.temp is Some,
    {
        self.temp_converted_image_path.is_some()
    }

    /// The foreground mask last built, if any.
    pub fn mask(&self) -> (r: &Option<RasterImage>)
        ensures
            r is Some <==> self@.mask is Some,
            r matches Some(m) ==> self@.mask == Some(m@),
    {
        &self.mask
    }

    /// Where a result named `name` goes in `result_folder`, with the extension
    /// of the session's format, and its encoded bytes.
    pub fn temp_result_artifact(&self, result_folder: &str, name: &str, temp_image: &RasterImage) -> (r: Result<
        (String, Vec<u8>),
        Error,
    >)
        ensures
            r is Ok <==> encoded(temp_image@, self@.format) is Some,
            r matches Ok((path, bytes)) ==> path@ == resolved(result_folder@, name@, extension_of(self@.format))
                && encoded(temp_image@, self@.format) == Some(bytes@),
            r is Err ==> r->Err_0 is ImageError,
    {
        let bytes = encode_image(temp_image, self.save_format)?;
        let path = resolve(result_folder, name, self.save_format.extension());
        Ok((path, bytes))
    }

    /// Records a result that was persisted at `saved_path`: it becomes the
    /// latest result and the source of the next transform.
    pub fn save_temp_result_image(&mut self, saved_path: String)
        ensures
            final(self)@ == (ConverterModel { temp: Some(saved_path@), source: saved_path@, ..old(self)@ }),
    {
        self.orgin_image_path = saved_path.clone();
        self.temp_converted_image_path = Some(saved_path);
    }

    /// The latest result, decoded from its artifact, encoded again in
    /// `save_format` for a destination that the user chose.
    pub fn save_converted_image(&self, latest: &RasterImage, save_format: SaveFormat) -> (r: Result<Vec<u8>, Error>)
        ensures
            r is Ok <==> encoded(latest@, save_format) is Some,
            r matches Ok(bytes) ==> encoded(latest@, save_format) == Some(bytes@),
            r is Err ==> r->Err_0 is ImageError,
    {
        encode_image(latest, save_format)
    }

    /// Grayscale of the decoded source.
    pub fn gray_scale(&self, source: &RasterImage) -> (r: RasterImage)
        ensures
            r@ == grayscaled(source@),
    {
        grayscale(source)
    }

    /// Inverse of the decoded source.
    pub fn bitwise_not(&self, source: &RasterImage) -> (r: RasterImage)
        ensures
            r@ == inverted(source@),
    {
        invert(source)
    }

    /// Hue rotation of the decoded source by `rotate_value` degrees.
    pub fn hue_rotate(&self, source: &RasterImage, rotate_value: i32) -> (r: RasterImage)
        ensures
            r@.same_size(source@),
            forall|i: int| 0 <= i < r@.pixels.len() ==> (#[trigger] r@.pixels[i]).a == source@.pixels[i].a,
            forall|i: int, j: int|
                0 <= i < r@.pixels.len() && 0 <= j < r@.pixels.len() && source@.pixels[i] == source@.pixels[j]
                    ==> #[trigger] r@.pixels[i] == #[trigger] r@.pixels[j],
    {
        hue_rotate(source, rotate_value)
    }

    /// Text art of the decoded source with sampling stride `scale`.
    pub fn ascii_art(&self, source: &RasterImage, scale: u32) -> (r: String)
        requires
            scale >= 1,
        ensures
            r@ == art_text(source@, scale as nat),
    {
        text_art(source, scale)
    }

    /// The decoded source turned by `rot`.
    pub fn rotate(&self, source: &RasterImage, rot: Rotation) -> (r: RasterImage)
        requires
            rot.fits(source@.width as int, source@.height as int),
        ensures
            r@ == rotated(source@, rot),
    {
        rotate(source, rot)
    }

    /// Saturating sum of the decoded source and a second image of its size.
    pub fn add_images(&self, source: &RasterImage, other: &RasterImage) -> (r: Result<RasterImage, Error>)
        ensures
            r is Ok <==> source@.same_size(other@),
            r is Err ==> r->Err_0 is WidthHeightNotEqualError,
            r matches Ok(img) ==> img@.same_size(source@) && img@.pixels.len() == source@.pixels.len()
                && forall|i: int|
                0 <= i < source@.pixels.len() ==> #[trigger] img@.pixels[i] == added_pixel(
                    source@.pixels[i],
                    other@.pixels[i],
                ),
    {
        crate::transform::add(source, other)
    }

    /// Bitwise AND of an image and a mask of its size.
    pub fn bitwise_and(&self, src: &RasterImage, mask: &RasterImage) -> (r: Result<RasterImage, Error>)
        ensures
            r is Ok <==> src@.same_size(mask@),
        r is Err ==> r->Err_0 is WidthHeightNotEqualError,
            r matches Ok(img) ==> img@.same_size(src@) && img@.pixels.len() == src@.pixels.len()
                && forall|i: int|
                0 <= i < src@.pixels.len() ==> #[trigger] img@.pixels[i] == and_pixel(src@.pixels[i], mask@.pixels[i]),
    {
        bitwise_and(src, mask)
    }

    /// Threshold mask of the decoded source at the default cut.
    pub fn threshold(&self, source: &RasterImage) -> (r: RasterImage)
        ensures
            r@ == thresholded(source@, DEFAULT_THRESHOLD),
    {
        threshold(source, DEFAULT_THRESHOLD)
    }

    /// The foreground mask of the decoded source and its inverse; the mask
    /// is also kept as the session's last mask.
    pub fn create_mask_and_mask_inv(&mut self, source: &RasterImage) -> (r: (RasterImage, RasterImage))
        ensures
            r.0@ == thresholded(source@, DEFAULT_THRESHOLD),
            r.1@ == inverted(thresholded(source@, DEFAULT_THRESHOLD)),
            final(self)@ == (ConverterModel { mask: Some(r.0@), ..old(self)@ }),
    {
        let (mask, mask_inv) = create_mask(source, DEFAULT_THRESHOLD);
        self.mask = Some(mask.clone());
        (mask, mask_inv)
    }

    /// The part of the decoded source that `logo_image` covers at the top-left corner.
    pub fn resize_from_img(&self, source: &RasterImage, logo_image: &RasterImage) -> (r: RasterImage)
        ensures
            r@.same_size(logo_image@),
            r@.pixels == grid(logo_image@.width, logo_image@.height, |x: int, y: int| cropped_cell(source@, x, y)),
    {
        resize_from(source, logo_image)
    }

    /// The decoded source with `trans_img` copied over its top-left corner.
    pub fn transparete_add_img(&self, source: &RasterImage, trans_img: &RasterImage) -> (r: RasterImage)
        ensures
            r@.same_size(source@),
            r@.pixels == grid(source@.width, source@.height, |x: int, y: int| overlaid_cell(source@, trans_img@, x, y)),
    {
        transparent_overlay(source, trans_img)
    }
}

} // verus!
