use booru_resources::api::ApiError;
use booru_resources::content::{body_kind, parse_header, request_body_kind, BodyKind, MediaType};

fn media_type(type_: &str, subtype: &str, suffix: Option<&str>, essence: &str) -> MediaType {
    MediaType {
        type_: type_.to_owned(),
        subtype: subtype.to_owned(),
        suffix: suffix.map(|text| text.to_owned()),
        essence: essence.to_owned(),
    }
}

#[test]
fn header_is_taken_apart() {
    let parsed = parse_header(Some("Application/Problem+JSON; charset=utf-8"));
    match parsed {
        Ok(Some(media_type)) => {
            assert_eq!(media_type.type_, "application");
            assert_eq!(media_type.subtype, "problem");
            assert_eq!(media_type.suffix.as_deref(), Some("json"));
            assert_eq!(media_type.essence, "application/problem+json");
        }
        _ => panic!("a media type was expected"),
    }
}

#[test]
fn header_may_be_absent() {
    assert!(matches!(parse_header(None), Ok(None)));
    assert!(matches!(request_body_kind(None), Err(ApiError::MissingContentType)));
    assert!(matches!(body_kind(None), Err(ApiError::MissingContentType)));
}

#[test]
fn header_may_be_malformed() {
    assert!(matches!(parse_header(Some("nonsense")), Err(ApiError::MalformedContentType)));
    assert!(matches!(request_body_kind(Some("/")), Err(ApiError::MalformedContentType)));
}

#[test]
fn json_bodies_are_told_by_subtype_or_suffix() {
    let by_subtype = media_type("application", "json", None, "application/json");
    assert!(matches!(body_kind(Some(by_subtype)), Ok(BodyKind::Json)));
    let by_suffix = media_type("application", "hal", Some("json"), "application/hal+json");
    assert!(matches!(body_kind(Some(by_suffix)), Ok(BodyKind::Json)));
    assert!(matches!(request_body_kind(Some("application/json; charset=utf-8")), Ok(BodyKind::Json)));
    assert!(matches!(request_body_kind(Some("application/hal+json")), Ok(BodyKind::Json)));
}

#[test]
fn form_bodies_are_told_by_type_and_subtype() {
    let form = media_type("multipart", "form-data", None, "multipart/form-data");
    assert!(matches!(body_kind(Some(form)), Ok(BodyKind::Multipart)));
    let header = "multipart/form-data; boundary=something";
    assert!(matches!(request_body_kind(Some(header)), Ok(BodyKind::Multipart)));
}

#[test]
fn other_bodies_are_refused_by_their_essence() {
    for (header, essence) in [
        ("text/json; charset=utf-8", "text/json"),
        ("application/xml", "application/xml"),
        ("application/atom+xml", "application/atom+xml"),
        ("multipart/mixed; boundary=x", "multipart/mixed"),
        ("text/plain", "text/plain"),
    ] {
        match request_body_kind(Some(header)) {
            Err(ApiError::UnsupportedContentType(refused)) => assert_eq!(refused, essence),
            _ => panic!("{header} is not accepted"),
        }
    }
}
