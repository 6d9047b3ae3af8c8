//! The image loader: from the bytes of an image file to a 28 by 28 grayscale
//! grid. Decoding, resampling and the conversion to gray are the `image`
//! crate's. What this module proves is which failure is reported when, what
//! is handed to the decoder, and which grid leaves for each image that
//! decodes.
//!
//! The results of three calls have names: each is a function of the call's
//! arguments as this build of the `image` crate computes it. Decoding has
//! none. The JPEG decoder picks its routines by what the processor offers and
//! does not promise the same pixels from each, and a decoder may fail for
//! want of memory, so equal bytes need not decode alike on every machine.

use vstd::prelude::*;
use vstd::pervasive::unreached;
use image::{DynamicImage, ImageError, ImageFormat};
use crate::error::{DecodeFailure, PipelineError};
use crate::grid::{GrayGrid, GRID_SIDE};

verus! {

/// A decoded image of any dimensions and colour depth.
#[verifier::external_type_specification]
#[verifier::external_body]
pub struct ExDynamicImage(image::DynamicImage);

/// A container format of image files.
#[verifier::external_type_specification]
#[verifier::external_body]
pub struct ExImageFormat(image::ImageFormat);

/// The `image` crate's account of a failure.
#[verifier::external_type_specification]
#[verifier::external_body]
pub struct ExImageError(image::ImageError);

/// What `image::ImageFormat::from_path` gives for a path: the format that
/// the path's extension names, if it names one.
pub uninterp spec fn named_format(path: Seq<char>) -> Option<ImageFormat>;

/// What `image::imageops::resize` gives for an image, new dimensions and the
/// nearest-neighbour filter: the raw buffer of the result, four bytes (red,
/// green, blue, alpha) to the pixel, row by row.
pub uninterp spec fn named_nearest(image: DynamicImage, width: u32, height: u32) -> Seq<u8>;

/// What `image::DynamicImage::to_luma8` gives for the four-channel image of
/// the given dimensions that a raw buffer holds: the raw buffer of the gray
/// image, one byte to the pixel, row by row.
pub uninterp spec fn named_luma(rgba: Seq<u8>, width: u32, height: u32) -> Seq<u8>;

/// The intensities of the grid that an image is normalized to: the image
/// resampled to `GRID_SIDE` by `GRID_SIDE` pixels, then converted to gray.
pub open spec fn normalized(image: DynamicImage) -> Seq<u8> {
    named_luma(named_nearest(image, GRID_SIDE, GRID_SIDE), GRID_SIDE, GRID_SIDE)
}

/// Calls `image::ImageFormat::from_path`. Claimed: the result is a function
/// of the path, which `named_format` names.
#[verifier::external_body]
fn format_of_path(path: &str) -> (format: Option<ImageFormat>)
    ensures
        format == named_format(path@),
{
    ImageFormat::from_path(path).ok()
}

/// Calls `image::load_from_memory_with_format`: the image that `bytes` encode
/// in `format`, or the decoder's error. Nothing is claimed of which bytes
/// decode, nor of the image.
#[verifier::external_body]
fn decode(bytes: &[u8], format: ImageFormat) -> (decoded: Result<DynamicImage, ImageError>) {
    image::load_from_memory_with_format(bytes, format)
}

/// Formats an `image::ImageError` by its `Display`. Nothing is claimed of the
/// text: for a failure of the operating system it is the system's own.
#[verifier::external_body]
fn account_of(error: &ImageError) -> (account: String) {
    error.to_string()
}

/// Calls `image::imageops::resize` with the nearest-neighbour filter and
/// hands out the raw buffer of the result. Claimed: the result is a function
/// of the image and the dimensions, which `named_nearest` names, and it has
/// the dimensions asked for, as four channels of one byte per pixel. The
/// call panics where the result is larger than a vector can be, which the
/// bound rules out. On its way it allocates an image as wide as the source
/// and as high as the result, sixteen bytes to the pixel: nothing is claimed
/// of a source so wide that this image does not fit the machine's memory.
#[verifier::external_body]
fn resize_nearest(image: &DynamicImage, width: u32, height: u32) -> (rgba: Vec<u8>)
    requires
        0 < height,
        4 * width * height <= isize::MAX,
    ensures
        rgba@ == named_nearest(*image, width, height),
        rgba@.len() == 4 * width * height,
{
    image::imageops::resize(image, width, height, image::imageops::FilterType::Nearest).into_raw()
}

/// Calls `image::DynamicImage::to_luma8` on the four-channel image of the
/// given dimensions that `rgba` holds. Claimed: `image::RgbaImage::from_raw`
/// takes a buffer that holds four bytes for each pixel; the gray image is a
/// function of the buffer and the dimensions, which `named_luma` names, and
/// has one byte for each pixel.
#[verifier::external_body]
fn luma_of_rgba(rgba: Vec<u8>, width: u32, height: u32) -> (luma: Option<Vec<u8>>)
    ensures
        0 < height && 4 * width * height <= rgba@.len() ==> luma is Some,
        luma matches Some(gray) ==> {
            &&& gray@ == named_luma(rgba@, width, height)
            &&& gray@.len() == width * height
        },
{
    let buffer = image::RgbaImage::from_raw(width, height, rgba)?;
    Some(DynamicImage::ImageRgba8(buffer).to_luma8().into_raw())
}

/// Stretches a decoded image to `GRID_SIDE` by `GRID_SIDE` pixels, whatever
/// its aspect ratio, by nearest-neighbour sampling, and converts the result
/// to gray.
pub fn normalize_image(image: &DynamicImage) -> (grid: GrayGrid)
    ensures
        grid@ == normalized(*image),
        grid.well_formed(),
        grid.is_model_sized(),
        grid@.len() == GRID_SIDE * GRID_SIDE,
        forall|i: int| 0 <= i < grid@.len() ==> 0 <= #[trigger] grid@[i] <= 255,
{
    let rgba = resize_nearest(image, GRID_SIDE, GRID_SIDE);
    match luma_of_rgba(rgba, GRID_SIDE, GRID_SIDE) {
        Some(gray) => match GrayGrid::new(GRID_SIDE, GRID_SIDE, gray) {
            Ok(grid) => grid,
            Err(_) => unreached(),
        },
        None => unreached(),
    }
}

/// What is handed to the decoder for the image at `img_path`, of which `file`
/// holds the bytes (`None` when the file could not be read): the bytes, and
/// the format that the path's extension names. A file that was not read is
/// reported before an extension that names no format.
pub fn decoder_input<'a>(img_path: &str, file: Option<&'a [u8]>) -> (result: Result<
    (&'a [u8], ImageFormat),
    PipelineError,
>)
    ensures
        match result {
            Ok((bytes, format)) => {
                &&& file == Some(bytes)
                &&& named_format(img_path@) == Some(format)
            },
            Err(e) => {
                ||| file is None && e == PipelineError::Decode(DecodeFailure::Unreadable)
                ||| file is Some && named_format(img_path@) is None && e == PipelineError::Decode(
                    DecodeFailure::UnknownFormat,
                )
            },
        },
{
    let bytes = match file {
        Some(bytes) => bytes,
        None => {
            return Err(PipelineError::Decode(DecodeFailure::Unreadable));
        },
    };
    match format_of_path(img_path) {
        Some(format) => Ok((bytes, format)),
        None => Err(PipelineError::Decode(DecodeFailure::UnknownFormat)),
    }
}

/// What the loader returns for each outcome of the decoder: the normalized
/// grid of an image, and for an error a decode failure that holds the
/// decoder's account of it. No grid stands in for an image that did not
/// decode.
pub fn grid_of_decoding(decoded: Result<DynamicImage, ImageError>) -> (result: Result<
    GrayGrid,
    PipelineError,
>)
    ensures
        match decoded {
            Ok(image) => {
                &&& result matches Ok(grid)
                &&& grid@ == normalized(image)
                &&& grid.well_formed()
                &&& grid.is_model_sized()
            },
            Err(_) => {
                &&& result matches Err(e)
                &&& e.is_undecodable()
            },
        },
{
    match decoded {
        Ok(image) => Ok(normalize_image(&image)),
        Err(error) => Err(PipelineError::Decode(DecodeFailure::Undecodable(account_of(&error)))),
    }
}

/// Loads the image at `img_path`, of which `file` holds the bytes (`None`
/// when the file could not be read). The format is the one that the path's
/// extension names; the contents are decoded as that format and normalized.
/// Whether the contents decode, and to which image, is the decoder's to say:
/// `decoder_input` fixes what it is asked, and `grid_of_decoding` what
/// becomes of its answer.
pub fn preprocess_image(img_path: &str, file: Option<&[u8]>) -> (result: Result<
    GrayGrid,
    PipelineError,
>)
    ensures
        match result {
            Ok(grid) => {
                &&& file is Some
                &&& named_format(img_path@) is Some
                &&& exists|image: DynamicImage| grid@ == #[trigger] normalized(image)
                &&& grid.well_formed()
                &&& grid.is_model_sized()
                &&& grid@.len() == GRID_SIDE * GRID_SIDE
                &&& forall|i: int| 0 <= i < grid@.len() ==> 0 <= #[trigger] grid@[i] <= 255
            },
            Err(e) => {
                &&& e is Decode
                &&& e == PipelineError::Decode(DecodeFailure::Unreadable) <==> file is None
                &&& e == PipelineError::Decode(DecodeFailure::UnknownFormat) <==> (file is Some
                    && named_format(img_path@) is None)
                &&& e.is_undecodable() <==> (file is Some && named_format(img_path@) is Some)
            },
        },
{
    let (bytes, format) = match decoder_input(img_path, file) {
        Ok(input) => input,
        Err(e) => {
            return Err(e);
        },
    };
    grid_of_decoding(decode(bytes, format))
}

} // verus!
