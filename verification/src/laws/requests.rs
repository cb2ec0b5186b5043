//! Laws of what is taken out of a request.

use crate::api::{ApiError, Rejection};
use crate::config::{Client, Config};
use crate::content::{
    body_kind, parse_header, parsed_media_type, request_body_kind, BodyKind, MediaType,
};
use crate::extract::{
    AppState, Ctx, DeleteBody, Extracted, Json, JsonOrMultipart, PageLimit, PageParams, Path, Query,
    RatingBody, ResourceParams,
};
use crate::model::{DateTime, Rating};
use crate::resource::field::{first_unknown, is_field_name, Mask, ResourceField, UnknownField};
use crate::text::{same_text, split};
use std::ops::Deref;
use vstd::prelude::*;

verus! {

/// A page has as many results as the request asks for, but no more than a thousand, and forty-two
/// where it does not ask.
pub proof fn law_page_limit(params: PageParams, limit: u64)
    requires
        call_ensures(PageParams::limit, (&params,), limit),
    ensures
        params.limit is None ==> limit == 42,
        params.limit matches Some(wanted) ==> limit <= wanted.number(),
        limit <= 1000,
        params.limit matches Some(wanted) ==> limit == wanted.number() || limit == 1000,
        limit > 0,
{
}

/// To ask for more results never gives fewer.
pub proof fn law_page_limit_grows(
    params: PageParams,
    other: PageParams,
    limit: u64,
    other_limit: u64,
)
    requires
        params.limit is Some,
        other.limit is Some,
        params.limit->0.number() <= other.limit->0.number(),
        call_ensures(PageParams::limit, (&params,), limit),
        call_ensures(PageParams::limit, (&other,), other_limit),
    ensures
        limit <= other_limit,
{
}

/// A limit is made of any number but zero, and gives that number back.
pub proof fn law_limit_gives_its_number_back(number: u64, limit: Option<PageLimit>, back: u64)
    requires
        call_ensures(PageLimit::new, (number,), limit),
        limit matches Some(made) ==> call_ensures(PageLimit::get, (&made,), back),
    ensures
        limit is None <==> number == 0,
        limit is Some ==> back == number,
{
}

/// The search string of a request without one is empty, and else it is as it was given.
pub proof fn law_criteria<'a, F: ResourceField>(params: &'a ResourceParams<F>, criteria: &'a str)
    requires
        call_ensures(ResourceParams::<F>::criteria, (params,), criteria),
    ensures
        params.query is None ==> criteria@ == Seq::<char>::empty(),
        params.query matches Some(query) ==> criteria@ == query@,
{
    reveal_strlit("");
    assert(""@ =~= Seq::<char>::empty());
}

/// A JSON body is handed on as it is, and its rejection is answered as that of a JSON body.
pub proof fn law_json_is_handed_on<T>(
    body: Result<T, Rejection>,
    extracted: Result<Json<T>, ApiError>,
)
    requires
        call_ensures(Json::<T>::from_request, (body,), extracted),
    ensures
        body matches Ok(value) ==> extracted is Ok && extracted->Ok_0.0 == value,
        body matches Err(rejection) ==> extracted is Err && extracted->Err_0
            == ApiError::JsonRejection(rejection),
{
}

/// The parameters in a path are handed on as they are, and their rejection is answered as that of
/// a path.
pub proof fn law_path_is_handed_on<T>(
    path: Result<T, Rejection>,
    extracted: Result<Path<T>, ApiError>,
)
    requires
        call_ensures(Path::<T>::from_request_parts, (path,), extracted),
    ensures
        path matches Ok(value) ==> extracted is Ok && extracted->Ok_0.0 == value,
        path matches Err(rejection) ==> extracted is Err && extracted->Err_0
            == ApiError::PathRejection(rejection),
{
}

/// The parameters in a query are handed on as they are, and their rejection is answered as that of
/// a query.
pub proof fn law_query_is_handed_on<T>(
    query: Result<T, Rejection>,
    extracted: Result<Query<T>, ApiError>,
)
    requires
        call_ensures(Query::<T>::from_request_parts, (query,), extracted),
    ensures
        query matches Ok(value) ==> extracted is Ok && extracted->Ok_0.0 == value,
        query matches Err(rejection) ==> extracted is Err && extracted->Err_0
            == ApiError::QueryRejection(rejection),
{
}

/// A body keeps its kind: JSON stays JSON and a form stays a form, each as it was given, and each
/// rejection is answered as that of its kind.
pub proof fn law_body_keeps_its_kind<T, M>(
    body: Extracted<T, M>,
    extracted: Result<JsonOrMultipart<T, M>, ApiError>,
)
    requires
        call_ensures(JsonOrMultipart::<T, M>::from_request, (body,), extracted),
    ensures
        body matches Extracted::Json(Ok(value)) ==> extracted is Ok && extracted->Ok_0
            == JsonOrMultipart::<T, M>::Json(value),
        body matches Extracted::Multipart(Ok(form)) ==> extracted is Ok && extracted->Ok_0
            == JsonOrMultipart::<T, M>::Multipart(form),
        body matches Extracted::Json(Err(rejection)) ==> extracted is Err && extracted->Err_0
            == ApiError::JsonRejection(rejection),
        body matches Extracted::Multipart(Err(rejection)) ==> extracted is Err && extracted->Err_0
            == ApiError::MultipartRejection(rejection),
{
}

/// A context has the settings and the connections of the server and the client of the request; a
/// request without a client has none.
pub proof fn law_context_of_request<C: Config, P>(
    state: AppState<C, P>,
    client: Result<Client, Rejection>,
    extracted: Result<Ctx<C, P>, ApiError>,
)
    requires
        call_ensures(Ctx::<C, P>::from_request_parts, (state, client), extracted),
    ensures
        client matches Ok(known) ==> {
            &&& extracted is Ok
            &&& extracted->Ok_0.0.config == state.config
            &&& extracted->Ok_0.0.client == known
            &&& extracted->Ok_0.1 == state.connection_pool
        },
        client matches Err(rejection) ==> extracted is Err && extracted->Err_0
            == ApiError::ExtensionRejection(rejection),
{
}

/// What a client is served with has the settings and the connections of the server.
pub proof fn law_context_of_client<C: Config, P>(
    state: AppState<C, P>,
    client: Client,
    ctx: Ctx<C, P>,
)
    requires
        call_ensures(AppState::<C, P>::make_context, (state, client), ctx),
    ensures
        ctx.0.config == state.config,
        ctx.0.client == client,
        ctx.1 == state.connection_pool,
{
}

/// Parameters and their copy ask for the same.
pub proof fn law_copied_parameters<F: ResourceField>(
    params: &ResourceParams<F>,
    copy: ResourceParams<F>,
    criteria: &str,
    copied_criteria: &str,
)
    requires
        call_ensures(ResourceParams::<F>::clone, (params,), copy),
        call_ensures(ResourceParams::<F>::criteria, (params,), criteria),
        call_ensures(ResourceParams::<F>::criteria, (&copy,), copied_criteria),
    ensures
        copied_criteria@ == criteria@,
        copy.query is Some <==> params.query is Some,
        copy.fields == params.fields,
{
}

/// The content of a body is what the body holds.
pub proof fn law_content_of_bodies(
    rating: &RatingBody,
    score: &Rating,
    deletion: &DeleteBody,
    version: &DateTime,
)
    requires
        call_ensures(RatingBody::deref, (rating,), score),
        call_ensures(DeleteBody::deref, (deletion,), version),
    ensures
        *score == rating.score,
        *version == deletion.version,
{
}

/// The parts of a media type are its type, its subtype, its suffix and its essence.
pub proof fn law_parts_of_media_type(media_type: MediaType)
    ensures
        media_type@.0 == media_type.type_@,
        media_type@.1 == media_type.subtype@,
        media_type.suffix is None <==> media_type@.2 is None,
        media_type.suffix is Some ==> media_type@.2 == Some(media_type.suffix->0@),
        media_type@.3 == media_type.essence@,
{
}

/// A body is JSON where its type is `application` and either its subtype or its suffix is `json`.
/// It is a form where its type is `multipart` and its subtype `form-data`. Any other body is
/// refused with its essence, and one without a content type for the want of it.
pub proof fn law_body_kind(content_type: Option<MediaType>, kind: Result<BodyKind, ApiError>)
    requires
        call_ensures(body_kind, (content_type,), kind),
    ensures
        content_type is None <==> kind == Err::<BodyKind, _>(ApiError::MissingContentType),
        kind == Ok::<_, ApiError>(BodyKind::Json) <==> content_type is Some
            && content_type->0.type_@ == "application"@ && (content_type->0.subtype@ == "json"@ || (
        content_type->0.suffix is Some && content_type->0.suffix->0@ == "json"@)),
        kind == Ok::<_, ApiError>(BodyKind::Multipart) <==> content_type is Some
            && content_type->0.type_@ == "multipart"@ && content_type->0.subtype@ == "form-data"@,
        content_type is Some && kind is Err ==> kind->Err_0 is UnsupportedContentType
            && kind->Err_0->UnsupportedContentType_0@ == content_type->0.essence@,
{
    reveal_strlit("application");
    reveal_strlit("multipart");
    assert("application"@.len() == 11 && "multipart"@.len() == 9);
}

/// A header is read as the media type that it is parsed as; one that cannot be parsed is refused,
/// and where there is none there is no media type.
pub proof fn law_header_is_parsed(
    content_type: Option<&str>,
    parsed: Result<Option<MediaType>, ApiError>,
)
    requires
        call_ensures(parse_header, (content_type,), parsed),
    ensures
        content_type is None ==> parsed is Ok && parsed->Ok_0 is None,
        content_type is Some && parsed_media_type(content_type->0@) is None ==> parsed is Err
            && parsed->Err_0 is MalformedContentType,
        content_type is Some && parsed_media_type(content_type->0@) is Some ==> {
            let parts = parsed_media_type(content_type->0@)->0;
            &&& parsed is Ok
            &&& parsed->Ok_0 is Some
            &&& parsed->Ok_0->0.type_@ == parts.0
            &&& parsed->Ok_0->0.subtype@ == parts.1
            &&& parsed->Ok_0->0.suffix is Some <==> parts.2 is Some
            &&& parts.2 is Some ==> parsed->Ok_0->0.suffix->0@ == parts.2->0
            &&& parsed->Ok_0->0.essence@ == parts.3
        },
{
}

/// The kind of a request body is that of the media type in its header.
pub proof fn law_request_body_kind(
    content_type: Option<&str>,
    parsed: Result<Option<MediaType>, ApiError>,
    kind: Result<BodyKind, ApiError>,
    known_kind: Result<BodyKind, ApiError>,
)
    requires
        call_ensures(parse_header, (content_type,), parsed),
        call_ensures(request_body_kind, (content_type,), kind),
        parsed matches Ok(media_type) ==> call_ensures(body_kind, (media_type,), known_kind),
    ensures
        parsed is Err ==> kind is Err && kind->Err_0 is MalformedContentType,
        parsed is Ok ==> {
            &&& kind is Ok <==> known_kind is Ok
            &&& kind is Ok ==> kind->Ok_0 == known_kind->Ok_0
            &&& kind is Err ==> (kind->Err_0 is MissingContentType
                <==> known_kind->Err_0 is MissingContentType)
            &&& kind is Err && kind->Err_0 is UnsupportedContentType ==> known_kind->Err_0
                is UnsupportedContentType && kind->Err_0->UnsupportedContentType_0@
                == known_kind->Err_0->UnsupportedContentType_0@
            &&& kind is Err ==> kind->Err_0 is MissingContentType
                || kind->Err_0 is UnsupportedContentType
        },
{
}

/// Two texts are the same where they have the same characters.
pub proof fn law_same_text(a: &str, b: &str, same: bool)
    requires
        call_ensures(same_text, (a, b), same),
    ensures
        same <==> a@.len() == b@.len() && forall|i: int|
            0 <= i < a@.len() ==> #[trigger] a@[i] == b@[i],
{
    if a@.len() == b@.len() && forall|i: int| 0 <= i < a@.len() ==> #[trigger] a@[i] == b@[i] {
        assert(a@ =~= b@);
    }
}

/// A text without a separator is one piece.
pub proof fn law_text_without_separator_is_one_piece(text: Seq<char>, separator: char)
    requires
        forall|i: int| 0 <= i < text.len() ==> #[trigger] text[i] != separator,
    ensures
        split(text, separator) == seq![text],
    decreases text.len(),
{
    if text.len() == 0 {
        assert(text =~= Seq::empty());
        assert(split(text, separator) =~= seq![text]);
    } else {
        let before = text.drop_last();
        assert forall|i: int| 0 <= i < before.len() implies #[trigger] before[i] != separator by {
            assert(text[i] != separator);
        }
        law_text_without_separator_is_one_piece(before, separator);
        assert(text[text.len() - 1] != separator);
        assert(before.push(text.last()) =~= text);
        assert(split(before, separator).last() == before);
        assert(split(before, separator).drop_last() =~= Seq::empty());
        assert(split(text, separator) =~= seq![text]);
    }
}

/// What stands before the first separator of a text is its first piece, and the other pieces are
/// those of what stands behind it.
pub proof fn law_pieces_are_between_separators(
    first: Seq<char>,
    rest: Seq<char>,
    separator: char,
)
    requires
        forall|i: int| 0 <= i < first.len() ==> #[trigger] first[i] != separator,
    ensures
        split(first.push(separator) + rest, separator) == seq![first] + split(rest, separator),
    decreases rest.len(),
{
    let text = first.push(separator) + rest;
    if rest.len() == 0 {
        law_text_without_separator_is_one_piece(first, separator);
        assert(text =~= first.push(separator));
        assert(text.drop_last() =~= first);
        assert(split(text, separator) =~= seq![first] + split(rest, separator));
    } else {
        law_pieces_are_between_separators(first, rest.drop_last(), separator);
        assert(text.drop_last() =~= first.push(separator) + rest.drop_last());
        assert(text.last() == rest.last());
        lemma_has_pieces(rest.drop_last(), separator);
        let before = split(rest.drop_last(), separator);
        assert((seq![first] + before).drop_last() =~= seq![first] + before.drop_last());
        assert(split(text, separator) =~= seq![first] + split(rest, separator));
    }
}

proof fn lemma_has_pieces(text: Seq<char>, separator: char)
    ensures
        split(text, separator).len() > 0,
    decreases text.len(),
{
    if text.len() > 0 {
        lemma_has_pieces(text.drop_last(), separator);
    }
}

/// Some field has this name.
pub open spec fn names_a_field<F: ResourceField>(piece: Seq<char>) -> bool {
    exists|field: F| #[trigger] field.name() == piece
}

/// A list of fields is read where each piece between its commas is the name of a field, and then
/// the fields of these names are selected and no others. Else the first piece that is no name of a
/// field is reported.
pub proof fn law_field_list<F: ResourceField>(list: &str, parsed: Result<Mask<F>, UnknownField>)
    requires
        call_ensures(Mask::<F>::parse, (list,), parsed),
    ensures
        parsed is Ok <==> forall|i: int|
            0 <= i < split(list@, ',').len() ==> names_a_field::<F>(
                #[trigger] split(list@, ',')[i],
            ),
        parsed is Ok ==> forall|field: F| #[trigger]
            parsed->Ok_0.contains(field) <==> exists|i: int|
                0 <= i < split(list@, ',').len() && #[trigger] split(list@, ',')[i] == field.name(),
        parsed is Err ==> !names_a_field::<F>(parsed->Err_0.name@),
        parsed is Err ==> exists|at: int|
            {
                &&& 0 <= at < split(list@, ',').len()
                &&& #[trigger] split(list@, ',')[at] == parsed->Err_0.name@
                &&& forall|i: int|
                    0 <= i < at ==> names_a_field::<F>(#[trigger] split(list@, ',')[i])
            },
{
    let pieces = split(list@, ',');
    assert forall|piece: Seq<char>| #[trigger]
        names_a_field::<F>(piece) <==> is_field_name::<F>(piece) by {}
    if parsed is Err {
        let name = parsed->Err_0.name@;
        assert(first_unknown::<F>(list@, name));
        let at = choose|at: int|
            {
                &&& 0 <= at < split(list@, ',').len()
                &&& #[trigger] split(list@, ',')[at] == name
                &&& !is_field_name::<F>(name)
                &&& forall|i: int|
                    0 <= i < at ==> is_field_name::<F>(#[trigger] split(list@, ',')[i])
            };
        assert(pieces[at] == name);
        assert(!names_a_field::<F>(name));
        assert forall|i: int| 0 <= i < at implies names_a_field::<F>(#[trigger] pieces[i]) by {
            assert(is_field_name::<F>(pieces[i]));
        }
    } else {
        assert forall|i: int| 0 <= i < pieces.len() implies names_a_field::<F>(
            #[trigger] pieces[i],
        ) by {
            assert(is_field_name::<F>(pieces[i]));
        }
    }
}

/// Nothing is selected by the empty mask, everything by the full one, and a mask with one more
/// field selects that one beside those it selected before.
pub proof fn law_masks<F: ResourceField>(
    none: Mask<F>,
    all: Mask<F>,
    mask: Mask<F>,
    added: F,
    more: Mask<F>,
    field: F,
    selected: bool,
)
    requires
        call_ensures(Mask::<F>::none, (), none),
        call_ensures(Mask::<F>::all, (), all),
        call_ensures(Mask::<F>::with, (mask, added), more),
        call_ensures(Mask::<F>::has, (&mask, field), selected),
    ensures
        !none.contains(field),
        all.contains(field),
        more.contains(field) <==> mask.contains(field) || field == added,
        selected <==> mask.contains(field),
{
}

} // verus!
