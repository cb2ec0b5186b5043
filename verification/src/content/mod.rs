//! What requests and posts carry.

pub mod pdf;

use crate::api::ApiError;
use crate::text::same_text;
use mime::{FromStrError, Mime};
use vstd::prelude::*;

verus! {

/// A media type, in lower case.
#[derive(Debug)]
pub struct MediaType {
    /// The top level type.
    pub type_: String,
    /// The subtype, without its suffix.
    pub subtype: String,
    /// The suffix of the subtype.
    pub suffix: Option<String>,
    /// The type and the subtype, without the parameters.
    pub essence: String,
}

/// The parts of a media type: the top level type, the subtype, the suffix and the essence.
pub type MediaTypeParts = (Seq<char>, Seq<char>, Option<Seq<char>>, Seq<char>);

impl View for MediaType {
    type V = MediaTypeParts;

    open spec fn view(&self) -> MediaTypeParts {
        (
            self.type_@,
            self.subtype@,
            match self.suffix {
                Some(suffix) => Some(suffix@),
                None => None,
            },
            self.essence@,
        )
    }
}

/// The error of the parser of `mime::Mime`, of which nothing is looked at.
#[verifier::external_type_specification]
#[verifier::external_body]
pub struct ExFromStrError(FromStrError);

/// The media type that `mime` reads a text as, if it can read it.
pub uninterp spec fn parsed_media_type(text: Seq<char>) -> Option<
    (Seq<char>, Seq<char>, Option<Seq<char>>, Seq<char>),
>;

/// Calls the parser of `mime::Mime` and takes the media type apart. Which texts it accepts and
/// how it splits them is not said: both depend on the text alone.
#[verifier::external_body]
fn parse_media_type(text: &str) -> (parsed: Result<MediaType, FromStrError>)
    ensures
        match parsed {
            Ok(media_type) => parsed_media_type(text@) == Some(media_type@),
            Err(_) => parsed_media_type(text@) is None,
        },
{
    let mime: Mime = text.parse()?;
    Ok(
        MediaType {
            type_: mime.type_().as_str().to_owned(),
            subtype: mime.subtype().as_str().to_owned(),
            suffix: mime.suffix().map(|suffix| suffix.as_str().to_owned()),
            essence: mime.essence_str().to_owned(),
        },
    )
}

/// The content type that a request states in its header, if it states one.
pub fn parse_header(content_type: Option<&str>) -> (parsed: Result<Option<MediaType>, ApiError>)
    ensures
        match content_type {
            None => parsed matches Ok(None),
            Some(text) => match parsed_media_type(text@) {
                Some(parts) => parsed matches Ok(Some(media_type)) && media_type@ == parts,
                None => parsed matches Err(ApiError::MalformedContentType),
            },
        },
{
    match content_type {
        None => Ok(None),
        Some(text) => match parse_media_type(text) {
            Ok(media_type) => Ok(Some(media_type)),
            Err(_) => Err(ApiError::MalformedContentType),
        },
    }
}

/// The ways in which a request body can be encoded.
#[derive(Clone, Copy, Debug, PartialEq, Eq, Structural)]
pub enum BodyKind {
    Json,
    Multipart,
}

/// The body is JSON.
pub open spec fn is_json(parts: MediaTypeParts) -> bool {
    parts.0 == "application"@ && (parts.1 == "json"@ || parts.2 == Some("json"@))
}

/// The body is a form in parts.
pub open spec fn is_form_data(parts: MediaTypeParts) -> bool {
    parts.0 == "multipart"@ && parts.1 == "form-data"@
}

/// Tells how a body with the given content type is encoded.
pub fn body_kind(content_type: Option<MediaType>) -> (kind: Result<BodyKind, ApiError>)
    ensures
        match content_type {
            None => kind matches Err(ApiError::MissingContentType),
            Some(media_type) => if is_json(media_type@) {
                kind == Ok::<_, ApiError>(BodyKind::Json)
            } else if is_form_data(media_type@) {
                kind == Ok::<_, ApiError>(BodyKind::Multipart)
            } else {
                kind matches Err(ApiError::UnsupportedContentType(essence)) && essence@
                    == media_type@.3
            },
        },
{
    match content_type {
        None => Err(ApiError::MissingContentType),
        Some(media_type) => {
            let json_suffix = match &media_type.suffix {
                Some(suffix) => same_text(suffix.as_str(), "json"),
                None => false,
            };
            if same_text(media_type.type_.as_str(), "application") && (same_text(
                media_type.subtype.as_str(),
                "json",
            ) || json_suffix) {
                return Ok(BodyKind::Json);
            } else if same_text(media_type.type_.as_str(), "multipart") && same_text(
                media_type.subtype.as_str(),
                "form-data",
            ) {
                return Ok(BodyKind::Multipart);
            }
            Err(ApiError::UnsupportedContentType(media_type.essence))
        },
    }
}

/// How the body of a request with the given content type header is encoded, or why it is refused.
pub open spec fn is_body_kind(
    content_type: Option<Seq<char>>,
    kind: Result<BodyKind, ApiError>,
) -> bool {
    match content_type {
        None => kind matches Err(ApiError::MissingContentType),
        Some(text) => match parsed_media_type(text) {
            None => kind matches Err(ApiError::MalformedContentType),
            Some(parts) => if is_json(parts) {
                kind == Ok::<_, ApiError>(BodyKind::Json)
            } else if is_form_data(parts) {
                kind == Ok::<_, ApiError>(BodyKind::Multipart)
            } else {
                kind matches Err(ApiError::UnsupportedContentType(essence)) && essence@ == parts.3
            },
        },
    }
}

/// Tells how the body of a request with the given content type header is encoded.
pub fn request_body_kind(content_type: Option<&str>) -> (kind: Result<BodyKind, ApiError>)
    ensures
        is_body_kind(
            match content_type {
                Some(text) => Some(text@),
                None => None,
            },
            kind,
        ),
{
    match parse_header(content_type) {
        Ok(media_type) => body_kind(media_type),
        Err(error) => Err(error),
    }
}

} // verus!
