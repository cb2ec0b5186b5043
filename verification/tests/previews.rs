use booru_resources::api::ApiError;
use booru_resources::config::Limits;
use booru_resources::content::pdf::{
    drawing_image, loaded_preview_image, painted_image, pdf_preview_image, preview_error, Drawing,
    Loader, Painter, PreviewStep,
};
use hayro::hayro_syntax::{LoadPdfError, Pdf};
use image::DynamicImage;

const RENDER_FAILURE: &str = "Failed to render PDF";
const PAGE_FAILURE: &str = "Failed to get page 1 from PDF";

const LIMITS: Limits = Limits { max_pdf_width: 6, max_pdf_height: 5 };

/// Draws as many pixels as the limits allow, each with the width of the page in its bytes.
struct Fill;

impl Painter for Fill {
    fn paint(&self, pdf: &Pdf, max_width: u16, max_height: u16) -> Option<Drawing> {
        let width = pdf.pages()[0].render_dimensions().0 as u8;
        let count = usize::from(max_width) * usize::from(max_height) * 4;
        Some(Drawing { width: max_width, height: max_height, pixels: vec![width; count] })
    }
}

struct Refuse;

impl Painter for Refuse {
    fn paint(&self, _pdf: &Pdf, _max_width: u16, _max_height: u16) -> Option<Drawing> {
        None
    }
}

fn document(pages: &str) -> Vec<u8> {
    document_of_width(30, pages)
}

fn document_of_width(width: u8, pages: &str) -> Vec<u8> {
    format!(
        "%PDF-1.4\n\
         1 0 obj\n<< /Type /Catalog /Pages 2 0 R >>\nendobj\n\
         2 0 obj\n<< /Type /Pages /Kids [{pages}] /Count 1 >>\nendobj\n\
         3 0 obj\n<< /Type /Page /Parent 2 0 R /MediaBox [0 0 {width} 20] >>\nendobj\n\
         trailer\n<< /Root 1 0 R /Size 4 >>\n%%EOF\n"
    )
    .into_bytes()
}

struct Load;

impl Loader for Load {
    fn load(&self, bytes: Vec<u8>) -> Result<Pdf, LoadPdfError> {
        Pdf::new(bytes)
    }
}

fn preview<P: Painter>(painter: &P, bytes: Vec<u8>) -> Result<DynamicImage, ApiError> {
    pdf_preview_image(&LIMITS, &Load, painter, Some(bytes))
}

fn failure(image: Result<DynamicImage, ApiError>) -> String {
    match image {
        Err(ApiError::FromStr(message)) => message,
        Err(_) => panic!("another error was expected"),
        Ok(_) => panic!("an error was expected"),
    }
}

#[test]
fn preview_shows_what_was_painted() {
    match preview(&Fill, document("3 0 R")) {
        Ok(image) => {
            assert_eq!(image.width(), 6);
            assert_eq!(image.height(), 5);
            assert_eq!(image.as_bytes(), vec![30u8; 120].as_slice());
        }
        Err(_) => panic!("the document has a page"),
    }
}

#[test]
fn preview_is_made_of_the_bytes_of_the_file() {
    for width in [10u8, 30] {
        match preview(&Fill, document_of_width(width, "3 0 R")) {
            Ok(image) => assert_eq!(image.as_bytes(), vec![width; 120].as_slice()),
            Err(_) => panic!("the document has a page"),
        }
        match loaded_preview_image(&LIMITS, &Fill, Pdf::new(document_of_width(width, "3 0 R"))) {
            Ok(image) => assert_eq!(image.as_bytes(), vec![width; 120].as_slice()),
            Err(_) => panic!("the document has a page"),
        }
    }
}

#[test]
fn preview_needs_a_file_that_can_be_read() {
    assert_eq!(failure(pdf_preview_image(&LIMITS, &Load, &Fill, None)), RENDER_FAILURE);
}

#[test]
fn preview_needs_a_document() {
    let file = b"this is no document".to_vec();
    assert_eq!(failure(preview(&Fill, file)), RENDER_FAILURE);
    assert_eq!(failure(preview(&Fill, Vec::new())), RENDER_FAILURE);
    let image = loaded_preview_image(&LIMITS, &Fill, Err(LoadPdfError::Invalid));
    assert_eq!(failure(image), RENDER_FAILURE);
}

#[test]
fn preview_needs_a_page() {
    assert_eq!(failure(preview(&Fill, document(""))), PAGE_FAILURE);
}

#[test]
fn preview_needs_a_drawing() {
    let image = preview(&Refuse, document("3 0 R"));
    assert_eq!(failure(image), RENDER_FAILURE);
    assert_eq!(failure(painted_image(None)), RENDER_FAILURE);
}

#[test]
fn drawing_needs_all_its_pixels() {
    let short = Drawing { width: 2, height: 2, pixels: vec![0; 15] };
    assert_eq!(failure(drawing_image(short)), RENDER_FAILURE);
    let pixels: Vec<u8> = (0..16).collect();
    let whole = Drawing { width: 2, height: 2, pixels: pixels.clone() };
    match drawing_image(whole) {
        Ok(image) => {
            assert_eq!((image.width(), image.height()), (2, 2));
            assert_eq!(image.as_bytes(), pixels.as_slice());
            assert!(matches!(image, DynamicImage::ImageRgba8(_)));
        }
        Err(_) => panic!("the drawing is whole"),
    }
    let empty = Drawing { width: 0, height: 7, pixels: Vec::new() };
    assert!(drawing_image(empty).is_ok());
}

#[test]
fn each_step_has_its_message() {
    for (step, expected) in [
        (PreviewStep::Read, RENDER_FAILURE),
        (PreviewStep::Parse, RENDER_FAILURE),
        (PreviewStep::FirstPage, PAGE_FAILURE),
        (PreviewStep::Scale, RENDER_FAILURE),
        (PreviewStep::Image, RENDER_FAILURE),
    ] {
        assert_eq!(failure(Err(preview_error(step))), expected);
    }
}
