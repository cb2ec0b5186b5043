use booru_resources::api::{ApiError, Rejection};
use booru_resources::config::{Client, Config};
use booru_resources::extract::{
    AppState, Ctx, DeleteBody, Extracted, Json, JsonOrMultipart, PageLimit, PageParams, Path, Query,
    RatingBody, ResourceParams, DEFAULT_LIMIT, MAX_LIMIT,
};
use booru_resources::model::{AvatarStyle, DateTime, MimeType, Rating};
use booru_resources::resource::comment::Field;
use booru_resources::resource::field::Mask;

#[test]
fn page_limit_has_a_default() {
    let params = PageParams { offset: None, limit: None };
    assert_eq!(params.limit(), 42);
    assert_eq!(params.limit(), DEFAULT_LIMIT);
}

#[test]
fn page_limit_is_capped() {
    let limit_of = |number: u64| PageParams { offset: Some(3), limit: PageLimit::new(number) }.limit();
    assert_eq!(limit_of(1), 1);
    assert_eq!(limit_of(40), 40);
    assert_eq!(limit_of(999), 999);
    assert_eq!(limit_of(1000), 1000);
    assert_eq!(limit_of(1001), 1000);
    assert_eq!(limit_of(u64::MAX), MAX_LIMIT);
}

#[test]
fn page_limit_cannot_be_zero() {
    assert!(PageLimit::new(0).is_none());
    assert_eq!(PageLimit::new(7).map(|limit| limit.get()), Some(7));
}

fn rejection(status: u16) -> Rejection {
    Rejection { status, message: "refused".to_owned() }
}

#[test]
fn json_is_unwrapped_or_rejected() {
    match Json::from_request(Ok::<u8, Rejection>(7)) {
        Ok(Json(value)) => assert_eq!(value, 7),
        Err(_) => panic!("the body was accepted"),
    }
    match Json::<u8>::from_request(Err(rejection(415))) {
        Err(ApiError::JsonRejection(refused)) => {
            assert_eq!(refused.status, 415);
            assert_eq!(refused.message, "refused");
        }
        _ => panic!("the body was rejected"),
    }
}

#[test]
fn path_is_unwrapped_or_rejected() {
    match Path::from_request_parts(Ok::<i64, Rejection>(-3)) {
        Ok(Path(value)) => assert_eq!(value, -3),
        Err(_) => panic!("the path was accepted"),
    }
    match Path::<i64>::from_request_parts(Err(rejection(400))) {
        Err(ApiError::PathRejection(refused)) => assert_eq!(refused.status, 400),
        _ => panic!("the path was rejected"),
    }
}

#[test]
fn query_is_unwrapped_or_rejected() {
    match Query::from_request_parts(Ok::<&str, Rejection>("a")) {
        Ok(Query(value)) => assert_eq!(value, "a"),
        Err(_) => panic!("the query was accepted"),
    }
    match Query::<&str>::from_request_parts(Err(rejection(422))) {
        Err(ApiError::QueryRejection(refused)) => assert_eq!(refused.status, 422),
        _ => panic!("the query was rejected"),
    }
}

#[test]
fn body_is_json_or_multipart() {
    let json: Extracted<u8, char> = Extracted::Json(Ok(1));
    assert!(matches!(JsonOrMultipart::from_request(json), Ok(JsonOrMultipart::Json(1))));
    let form: Extracted<u8, char> = Extracted::Multipart(Ok('f'));
    assert!(matches!(JsonOrMultipart::from_request(form), Ok(JsonOrMultipart::Multipart('f'))));
    let json: Extracted<u8, char> = Extracted::Json(Err(rejection(400)));
    assert!(matches!(
        JsonOrMultipart::from_request(json),
        Err(ApiError::JsonRejection(Rejection { status: 400, .. }))
    ));
    let form: Extracted<u8, char> = Extracted::Multipart(Err(rejection(413)));
    assert!(matches!(
        JsonOrMultipart::from_request(form),
        Err(ApiError::MultipartRejection(Rejection { status: 413, .. }))
    ));
}

#[derive(Clone)]
struct Site(u8);

impl Config for Site {
    fn gravatar_url(&self, lowercase_name: &str) -> String {
        lowercase_name.to_owned()
    }

    fn custom_avatar_url(&self, lowercase_name: &str) -> String {
        lowercase_name.to_owned()
    }

    fn avatar_url(&self, lowercase_name: &str, _avatar_style: AvatarStyle) -> String {
        lowercase_name.to_owned()
    }

    fn content_url(&self, _id: i64, _size: Option<i64>, _mime_type: MimeType) -> String {
        String::new()
    }

    fn thumbnail_url(&self, _id: i64, _size: Option<i64>) -> String {
        String::new()
    }
}

#[test]
fn context_holds_the_client() {
    let state = AppState { config: Site(5), connection_pool: "pool" };
    match Ctx::from_request_parts(state, Ok(Client { id: Some(9) })) {
        Ok(ctx) => {
            assert_eq!(ctx.config.0, 5);
            assert_eq!(ctx.client.id, Some(9));
            assert_eq!(ctx.1, "pool");
            let copy = ctx.clone();
            assert_eq!(copy.config.0, 5);
            assert_eq!(copy.client.id, Some(9));
            assert_eq!(copy.1, "pool");
        }
        Err(_) => panic!("the client is known"),
    }
}

#[test]
fn context_needs_a_client() {
    let state = AppState { config: Site(5), connection_pool: () };
    match Ctx::from_request_parts(state, Err(rejection(500))) {
        Err(ApiError::ExtensionRejection(refused)) => assert_eq!(refused.status, 500),
        _ => panic!("the client is not known"),
    }
}

#[test]
fn rating_body_is_its_score() {
    let body = RatingBody { score: Rating::Dislike };
    assert_eq!(*body, Rating::Dislike);
}

#[test]
fn delete_body_is_its_version() {
    let body = DeleteBody { version: DateTime(12) };
    assert_eq!(*body, DateTime(12));
}

#[test]
fn criteria_are_empty_without_a_query() {
    let params = ResourceParams::<Field> { query: None, fields: Mask::all() };
    assert_eq!(params.criteria(), "");
    let params = ResourceParams::<Field> {
        query: Some("sort:date".to_owned()),
        fields: Mask::none().with(Field::Id),
    };
    assert_eq!(params.criteria(), "sort:date");
    let copy = params.clone();
    assert_eq!(copy.criteria(), "sort:date");
    assert!(copy.fields.has(Field::Id));
    assert!(!copy.fields.has(Field::Text));
}
