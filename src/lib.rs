//! Image transforms and compositing: grayscale, invert, hue rotation,
//! inverse-mapping rotation, saturating addition, threshold masks,
//! bitwise masking, placement copies and text-art rendering, with the
//! naming and session state used to chain results through artifacts.

pub mod artifact;
pub mod codec;
pub mod converter;
pub mod error;
pub mod raster;
pub mod rotation;
pub mod save_format;
pub mod select_mode;
pub mod text_art;
pub mod text_file;
pub mod text_viewer;
pub mod transform;
