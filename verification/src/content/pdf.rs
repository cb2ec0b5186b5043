//! Previews of PDF documents.

use crate::api::ApiError;
use crate::config::Limits;
use hayro::hayro_syntax::{LoadPdfError, Pdf};
use image::{DynamicImage, RgbaImage};
use vstd::prelude::*;

verus! {

/// The error of loading a document with `hayro`, of which nothing is looked at.
#[verifier::external_type_specification]
#[verifier::external_body]
pub struct ExLoadPdfError(LoadPdfError);

/// A document that `hayro` has loaded. All that is known of one is whether it has pages.
#[verifier::external_type_specification]
#[verifier::external_body]
pub struct ExPdf(Pdf);

/// Tells whether a document has a page, which `Pdf::pages` tells.
pub uninterp spec fn pdf_has_pages(pdf: Pdf) -> bool;

/// Calls `Pdf::pages` and tells whether there is a first one.
#[verifier::external_body]
fn has_pages(pdf: &Pdf) -> (found: bool)
    ensures
        found == pdf_has_pages(*pdf),
{
    pdf.pages().first().is_some()
}

/// An image of the `image` crate: bytes, and how they are arranged.
#[verifier::external_type_specification]
#[verifier::external_body]
pub struct ExDynamicImage(DynamicImage);

/// The bytes of the pixels that an image holds, row by row, which `DynamicImage::as_bytes` hands
/// out.
pub uninterp spec fn image_pixels(image: DynamicImage) -> Seq<u8>;

/// The width and the height of an image, in pixels.
pub uninterp spec fn image_size(image: DynamicImage) -> (u32, u32);

/// Tells whether each pixel is a byte of red, one of green, one of blue and one of opacity, which
/// `DynamicImage::color` tells.
pub uninterp spec fn image_is_rgba(image: DynamicImage) -> bool;

/// Calls `RgbaImage::from_raw`, which takes the bytes as rows of pixels of four bytes each, and
/// fails where the bytes are too few or where the length of a row in bytes is no `usize`. Bytes
/// behind the last pixel stay with the image.
#[verifier::external_body]
fn rgba_image(width: u32, height: u32, pixels: Vec<u8>) -> (image: Option<DynamicImage>)
    ensures
        match image {
            Some(made) => {
                &&& 4 * width <= usize::MAX
                &&& 4 * width * height <= pixels@.len()
                &&& image_pixels(made) == pixels@
                &&& image_size(made) == (width, height)
                &&& image_is_rgba(made)
            },
            None => 4 * width > usize::MAX || 4 * width * height > pixels@.len(),
        },
{
    RgbaImage::from_raw(width, height, pixels).map(DynamicImage::ImageRgba8)
}

/// The steps of rendering a preview that can fail once the file is open.
#[derive(Clone, Copy, Debug, PartialEq, Eq, Structural)]
pub enum PreviewStep {
    /// Reading the file.
    Read,
    /// Making out the document.
    Parse,
    /// Getting its first page.
    FirstPage,
    /// Scaling the size of the page.
    Scale,
    /// Making an image of the pixels.
    Image,
}

/// What a failed step is answered with.
pub open spec fn failure_message(step: PreviewStep) -> Seq<char> {
    match step {
        PreviewStep::FirstPage => "Failed to get page 1 from PDF"@,
        _ => "Failed to render PDF"@,
    }
}

/// The error that a failed step is answered with.
pub fn preview_error(step: PreviewStep) -> (error: ApiError)
    ensures
        error matches ApiError::FromStr(message) && message@ == failure_message(step),
{
    match step {
        PreviewStep::FirstPage => ApiError::FromStr("Failed to get page 1 from PDF".to_owned()),
        _ => ApiError::FromStr("Failed to render PDF".to_owned()),
    }
}

/// The step failed.
pub open spec fn fails_at(image: Result<DynamicImage, ApiError>, step: PreviewStep) -> bool {
    image matches Err(ApiError::FromStr(message)) && message@ == failure_message(step)
}

/// A page that has been drawn: for each pixel a byte of red, one of green, one of blue and one of
/// opacity.
#[derive(Debug)]
pub struct Drawing {
    pub width: u16,
    pub height: u16,
    pub pixels: Vec<u8>,
}

/// The image shows a drawing, or the drawing has too few bytes to make an image of.
pub open spec fn is_drawing_image(
    drawing: Drawing,
    image: Result<DynamicImage, ApiError>,
) -> bool {
    if 4 * drawing.width * drawing.height <= drawing.pixels@.len() {
        &&& image matches Ok(made)
        &&& image_pixels(made) == drawing.pixels@
        &&& image_size(made) == (drawing.width as u32, drawing.height as u32)
        &&& image_is_rgba(made)
    } else {
        fails_at(image, PreviewStep::Image)
    }
}

/// Makes an image of a drawing.
pub fn drawing_image(drawing: Drawing) -> (image: Result<DynamicImage, ApiError>)
    ensures
        is_drawing_image(drawing, image),
{
    match rgba_image(drawing.width as u32, drawing.height as u32, drawing.pixels) {
        Some(made) => Ok(made),
        None => Err(preview_error(PreviewStep::Image)),
    }
}

/// Something that draws documents.
pub trait Painter {
    /// Draws the first page of a document on white ground, scaled down to the given size where it
    /// is larger, with its ratio kept. There is no drawing where the size of the page cannot be
    /// given in whole pixels.
    fn paint(&self, pdf: &Pdf, max_width: u16, max_height: u16) -> Option<Drawing>;
}

/// The image is made of what was drawn.
pub open spec fn is_painted_image(
    painted: Option<Drawing>,
    image: Result<DynamicImage, ApiError>,
) -> bool {
    match painted {
        Some(drawing) => is_drawing_image(drawing, image),
        None => fails_at(image, PreviewStep::Scale),
    }
}

/// Makes an image of what was drawn.
pub fn painted_image(painted: Option<Drawing>) -> (image: Result<DynamicImage, ApiError>)
    ensures
        is_painted_image(painted, image),
{
    match painted {
        Some(drawing) => drawing_image(drawing),
        None => Err(preview_error(PreviewStep::Scale)),
    }
}

/// The image is a preview of a document, or the first step that failed is answered, given what
/// loading the document gave.
pub open spec fn is_loaded_preview<P: Painter>(
    painter: P,
    limits: Limits,
    loaded: Result<Pdf, LoadPdfError>,
    image: Result<DynamicImage, ApiError>,
) -> bool {
    match loaded {
        Err(_) => fails_at(image, PreviewStep::Parse),
        Ok(pdf) => if !pdf_has_pages(pdf) {
            fails_at(image, PreviewStep::FirstPage)
        } else {
            exists|painted: Option<Drawing>| #[trigger]
                call_ensures(
                    P::paint,
                    (&painter, &pdf, limits.max_pdf_width, limits.max_pdf_height),
                    painted,
                ) && is_painted_image(painted, image)
        },
    }
}

/// Renders a preview of a document, given what loading the document gave.
pub fn loaded_preview_image<P: Painter>(
    limits: &Limits,
    painter: &P,
    loaded: Result<Pdf, LoadPdfError>,
) -> (image: Result<DynamicImage, ApiError>)
    ensures
        is_loaded_preview(*painter, *limits, loaded, image),
{
    let pdf = match loaded {
        Ok(pdf) => pdf,
        Err(_) => return Err(preview_error(PreviewStep::Parse)),
    };
    if !has_pages(&pdf) {
        return Err(preview_error(PreviewStep::FirstPage));
    }
    painted_image(painter.paint(&pdf, limits.max_pdf_width, limits.max_pdf_height))
}

/// Something that loads documents.
pub trait Loader {
    /// Loads a document from the bytes of a file. `Pdf::new` does this, but it panics on some
    /// malformed files: whoever calls it has to see to that, so nothing is promised of it here.
    fn load(&self, bytes: Vec<u8>) -> Result<Pdf, LoadPdfError>;
}

/// The image is a preview of the document in a file, or the first step that failed is answered.
/// There are no bytes where the file could not be read.
pub open spec fn is_preview<L: Loader, P: Painter>(
    loader: L,
    painter: P,
    limits: Limits,
    file: Option<Vec<u8>>,
    image: Result<DynamicImage, ApiError>,
) -> bool {
    match file {
        None => fails_at(image, PreviewStep::Read),
        Some(bytes) => exists|loaded: Result<Pdf, LoadPdfError>| #[trigger]
            call_ensures(L::load, (&loader, bytes), loaded) && is_loaded_preview(
                painter,
                limits,
                loaded,
                image,
            ),
    }
}

/// Renders a preview of the document in a file. There are no bytes where the file could not be
/// read.
pub fn pdf_preview_image<L: Loader, P: Painter>(
    limits: &Limits,
    loader: &L,
    painter: &P,
    file: Option<Vec<u8>>,
) -> (image: Result<DynamicImage, ApiError>)
    ensures
        is_preview(*loader, *painter, *limits, file, image),
{
    match file {
        Some(bytes) => loaded_preview_image(limits, painter, loader.load(bytes)),
        None => Err(preview_error(PreviewStep::Read)),
    }
}

} // verus!
