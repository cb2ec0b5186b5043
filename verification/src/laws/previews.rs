//! Laws of previews of PDF documents.

use crate::api::ApiError;
use crate::config::Limits;
use crate::content::pdf::{
    drawing_image, image_is_rgba, image_pixels, image_size, loaded_preview_image, painted_image,
    pdf_has_pages, pdf_preview_image, preview_error, Drawing, Loader, Painter, PreviewStep,
};
use hayro::hayro_syntax::{LoadPdfError, Pdf};
use image::DynamicImage;
use vstd::prelude::*;

verus! {

/// Only a document without pages is told of its first page; every other failure is one of
/// rendering.
pub proof fn law_messages_of_failures(step: PreviewStep, error: ApiError)
    requires
        call_ensures(preview_error, (step,), error),
    ensures
        error is FromStr,
        step == PreviewStep::FirstPage ==> error->FromStr_0@ == "Failed to get page 1 from PDF"@,
        step != PreviewStep::FirstPage ==> error->FromStr_0@ == "Failed to render PDF"@,
{
}

/// A drawing becomes an image with its size and its bytes where it has four bytes for each pixel,
/// and else rendering fails.
pub proof fn law_drawing_becomes_image(drawing: Drawing, image: Result<DynamicImage, ApiError>)
    requires
        call_ensures(drawing_image, (drawing,), image),
    ensures
        image is Ok <==> drawing.width * drawing.height * 4 <= drawing.pixels@.len(),
        image is Ok ==> {
            &&& image_pixels(image->Ok_0) == drawing.pixels@
            &&& image_size(image->Ok_0).0 == drawing.width
            &&& image_size(image->Ok_0).1 == drawing.height
            &&& image_is_rgba(image->Ok_0)
        },
        image is Err ==> image->Err_0 is FromStr && image->Err_0->FromStr_0@
            == "Failed to render PDF"@,
{
    assert(drawing.width * drawing.height * 4 == 4 * drawing.width * drawing.height)
        by (nonlinear_arith);
}

/// What was painted becomes an image, and nothing painted is a failure of rendering.
pub proof fn law_painting_becomes_image(
    painted: Option<Drawing>,
    image: Result<DynamicImage, ApiError>,
)
    requires
        call_ensures(painted_image, (painted,), image),
    ensures
        image is Ok <==> painted is Some && painted->0.width * painted->0.height * 4
            <= painted->0.pixels@.len(),
        image is Ok ==> {
            &&& image_pixels(image->Ok_0) == painted->0.pixels@
            &&& image_size(image->Ok_0).0 == painted->0.width
            &&& image_size(image->Ok_0).1 == painted->0.height
            &&& image_is_rgba(image->Ok_0)
        },
        image is Err ==> image->Err_0 is FromStr && image->Err_0->FromStr_0@
            == "Failed to render PDF"@,
{
    if let Some(drawing) = painted {
        assert(drawing.width * drawing.height * 4 == 4 * drawing.width * drawing.height)
            by (nonlinear_arith);
    }
}

/// A preview shows what the painter painted of the document, within the limits of the site. A
/// document that was not loaded and one without pages each have their message.
pub proof fn law_preview_of_loaded_document<P: Painter>(
    limits: &Limits,
    painter: &P,
    loaded: Result<Pdf, LoadPdfError>,
    image: Result<DynamicImage, ApiError>,
)
    requires
        call_ensures(loaded_preview_image::<P>, (limits, painter, loaded), image),
    ensures
        image is Err ==> image->Err_0 is FromStr,
        image is Ok ==> loaded is Ok && pdf_has_pages(loaded->Ok_0),
        image is Ok ==> exists|drawing: Drawing| #[trigger]
            call_ensures(
                P::paint,
                (painter, &loaded->Ok_0, limits.max_pdf_width, limits.max_pdf_height),
                Some(drawing),
            ) && image_pixels(image->Ok_0) == drawing.pixels@ && image_size(image->Ok_0).0
                == drawing.width && image_size(image->Ok_0).1 == drawing.height && image_is_rgba(
                image->Ok_0,
            ),
        loaded is Err ==> image is Err && image->Err_0->FromStr_0@ == "Failed to render PDF"@,
        loaded is Ok && !pdf_has_pages(loaded->Ok_0) ==> image is Err && image->Err_0->FromStr_0@
            == "Failed to get page 1 from PDF"@,
        loaded is Ok && pdf_has_pages(loaded->Ok_0) && image is Err ==> image->Err_0->FromStr_0@
            == "Failed to render PDF"@,
        loaded is Ok && pdf_has_pages(loaded->Ok_0) && (forall|painted: Option<Drawing>| #[trigger]
            call_ensures(
                P::paint,
                (painter, &loaded->Ok_0, limits.max_pdf_width, limits.max_pdf_height),
                painted,
            ) ==> painted is Some && painted->0.width * painted->0.height * 4
                <= painted->0.pixels@.len()) ==> image is Ok,
{
    if loaded is Ok && pdf_has_pages(loaded->Ok_0) {
        let painted = choose|painted: Option<Drawing>| #[trigger]
            call_ensures(
                P::paint,
                (painter, &loaded->Ok_0, limits.max_pdf_width, limits.max_pdf_height),
                painted,
            ) && crate::content::pdf::is_painted_image(painted, image);
        if let Some(drawing) = painted {
            assert(drawing.width * drawing.height * 4 == 4 * drawing.width * drawing.height)
                by (nonlinear_arith);
        }
    }
}

/// The preview of a file is that of a document loaded from its bytes; a file that could not be read
/// is a failure of rendering.
pub proof fn law_preview_of_file<L: Loader, P: Painter>(
    limits: &Limits,
    loader: &L,
    painter: &P,
    file: Option<Vec<u8>>,
    image: Result<DynamicImage, ApiError>,
)
    requires
        call_ensures(pdf_preview_image::<L, P>, (limits, loader, painter, file), image),
    ensures
        file is None ==> image is Err && image->Err_0 is FromStr && image->Err_0->FromStr_0@
            == "Failed to render PDF"@,
        file is Some && image is Ok ==> exists|pdf: Pdf, drawing: Drawing|
            {
                &&& #[trigger] call_ensures(L::load, (loader, file->0), Ok(pdf))
                &&& pdf_has_pages(pdf)
                &&& #[trigger] call_ensures(
                    P::paint,
                    (painter, &pdf, limits.max_pdf_width, limits.max_pdf_height),
                    Some(drawing),
                )
                &&& image_pixels(image->Ok_0) == drawing.pixels@
                &&& image_size(image->Ok_0).0 == drawing.width
                &&& image_size(image->Ok_0).1 == drawing.height
                &&& image_is_rgba(image->Ok_0)
            },
        file is Some && (forall|loaded: Result<Pdf, LoadPdfError>| #[trigger]
            call_ensures(L::load, (loader, file->0), loaded) ==> loaded is Err) ==> image is Err
            && image->Err_0 is FromStr && image->Err_0->FromStr_0@ == "Failed to render PDF"@,
        file is Some && (forall|loaded: Result<Pdf, LoadPdfError>| #[trigger]
            call_ensures(L::load, (loader, file->0), loaded) ==> loaded is Ok && !pdf_has_pages(
                loaded->Ok_0,
            )) ==> image is Err && image->Err_0 is FromStr && image->Err_0->FromStr_0@
            == "Failed to get page 1 from PDF"@,
{
    if let Some(bytes) = file {
        let loaded = choose|loaded: Result<Pdf, LoadPdfError>| #[trigger]
            call_ensures(L::load, (loader, bytes), loaded)
                && crate::content::pdf::is_loaded_preview(*painter, *limits, loaded, image);
        assert(call_ensures(L::load, (loader, bytes), loaded));
        if image is Ok {
            let painted = choose|painted: Option<Drawing>| #[trigger]
                call_ensures(
                    P::paint,
                    (painter, &loaded->Ok_0, limits.max_pdf_width, limits.max_pdf_height),
                    painted,
                ) && crate::content::pdf::is_painted_image(painted, image);
            let pdf = loaded->Ok_0;
            let drawing = painted->0;
            assert(call_ensures(L::load, (loader, file->0), Ok(pdf)));
            assert(call_ensures(
                P::paint,
                (painter, &pdf, limits.max_pdf_width, limits.max_pdf_height),
                Some(drawing),
            ));
        }
    }
}

} // verus!
