//! What is taken out of a request, and the responses to searches.

use crate::api::{ApiError, Rejection};
use crate::config::{Client, Config, Context};
use crate::model::{DateTime, Rating};
use crate::resource::field::{Mask, ResourceField};
use std::ops::Deref;
use vstd::prelude::*;

verus! {

/// What the server holds for the requests that it serves: the settings of the site and the
/// connections to its database.
pub struct AppState<C: Config, P> {
    pub config: C,
    pub connection_pool: P,
}

impl<C: Config, P> AppState<C, P> {
    /// What the request of the given client is served with.
    pub fn make_context(self, client: Client) -> (ctx: Ctx<C, P>)
        ensures
            ctx.0.config == self.config,
            ctx.0.client == client,
            ctx.1 == self.connection_pool,
    {
        Ctx(Context { config: self.config, client }, self.connection_pool)
    }
}

/// The context of a request, and the connections to the database.
pub struct Ctx<C: Config, P>(pub Context<C>, pub P);

impl<C: Config + Clone, P: Clone> Clone for Ctx<C, P> {
    fn clone(&self) -> (copy: Self)
        ensures
            cloned(self.0.config, copy.0.config),
            copy.0.client == self.0.client,
            cloned(self.1, copy.1),
    {
        Ctx(self.0.clone(), self.1.clone())
    }
}

impl<C: Config, P> Deref for Ctx<C, P> {
    type Target = Context<C>;

    fn deref(&self) -> (context: &Context<C>)
        ensures
            *context == self.0,
    {
        &self.0
    }
}

impl<C: Config, P> Ctx<C, P> {
    /// The context of the request of a client, if the request says who its client is.
    pub fn from_request_parts(
        state: AppState<C, P>,
        client: Result<Client, Rejection>,
    ) -> (extracted: Result<Self, ApiError>)
        ensures
            match client {
                Ok(client) => extracted matches Ok(ctx) && ctx.0.config == state.config
                    && ctx.0.client == client && ctx.1 == state.connection_pool,
                Err(rejection) => extracted == Err::<Self, _>(
                    ApiError::ExtensionRejection(rejection),
                ),
            },
    {
        match client {
            Ok(client) => Ok(state.make_context(client)),
            Err(rejection) => Err(ApiError::ExtensionRejection(rejection)),
        }
    }
}

/// A body in JSON.
pub struct Json<T>(pub T);

impl<T> Json<T> {
    /// The body, or the error that answers its rejection.
    pub fn from_request(body: Result<T, Rejection>) -> (extracted: Result<Self, ApiError>)
        ensures
            match body {
                Ok(value) => extracted == Ok::<_, ApiError>(Json(value)),
                Err(rejection) => extracted == Err::<Self, _>(ApiError::JsonRejection(rejection)),
            },
    {
        match body {
            Ok(value) => Ok(Json(value)),
            Err(rejection) => Err(ApiError::JsonRejection(rejection)),
        }
    }
}

/// What reading a body gave, as JSON or as a form in parts.
pub enum Extracted<T, M> {
    Json(Result<T, Rejection>),
    Multipart(Result<M, Rejection>),
}

/// A body that can be given either in JSON or as a form in parts, like that of an upload.
pub enum JsonOrMultipart<T, M> {
    Json(T),
    Multipart(M),
}

impl<T, M> JsonOrMultipart<T, M> {
    /// The body, or the error that answers its rejection.
    pub fn from_request(body: Extracted<T, M>) -> (extracted: Result<Self, ApiError>)
        ensures
            match body {
                Extracted::Json(Ok(value)) => extracted == Ok::<_, ApiError>(
                    JsonOrMultipart::<T, M>::Json(value),
                ),
                Extracted::Json(Err(rejection)) => extracted == Err::<Self, _>(
                    ApiError::JsonRejection(rejection),
                ),
                Extracted::Multipart(Ok(form)) => extracted == Ok::<_, ApiError>(
                    JsonOrMultipart::<T, M>::Multipart(form),
                ),
                Extracted::Multipart(Err(rejection)) => extracted == Err::<Self, _>(
                    ApiError::MultipartRejection(rejection),
                ),
            },
    {
        match body {
            Extracted::Json(Ok(value)) => Ok(JsonOrMultipart::Json(value)),
            Extracted::Json(Err(rejection)) => Err(ApiError::JsonRejection(rejection)),
            Extracted::Multipart(Ok(form)) => Ok(JsonOrMultipart::Multipart(form)),
            Extracted::Multipart(Err(rejection)) => Err(ApiError::MultipartRejection(rejection)),
        }
    }
}

/// The parameters in the path of a request.
pub struct Path<T>(pub T);

impl<T> Path<T> {
    /// The parameters, or the error that answers their rejection.
    pub fn from_request_parts(path: Result<T, Rejection>) -> (extracted: Result<Self, ApiError>)
        ensures
            match path {
                Ok(value) => extracted == Ok::<_, ApiError>(Path(value)),
                Err(rejection) => extracted == Err::<Self, _>(ApiError::PathRejection(rejection)),
            },
    {
        match path {
            Ok(value) => Ok(Path(value)),
            Err(rejection) => Err(ApiError::PathRejection(rejection)),
        }
    }
}

/// The parameters in the query of a request.
pub struct Query<T>(pub T);

impl<T> Query<T> {
    /// The parameters, or the error that answers their rejection.
    pub fn from_request_parts(query: Result<T, Rejection>) -> (extracted: Result<Self, ApiError>)
        ensures
            match query {
                Ok(value) => extracted == Ok::<_, ApiError>(Query(value)),
                Err(rejection) => extracted == Err::<Self, _>(ApiError::QueryRejection(rejection)),
            },
    {
        match query {
            Ok(value) => Ok(Query(value)),
            Err(rejection) => Err(ApiError::QueryRejection(rejection)),
        }
    }
}

/// Request body to apply or change a score.
pub struct RatingBody {
    pub score: Rating,
}

impl Deref for RatingBody {
    type Target = Rating;

    fn deref(&self) -> (score: &Rating)
        ensures
            *score == self.score,
    {
        &self.score
    }
}

/// Request body for deleting a resource.
pub struct DeleteBody {
    /// Resource version.
    pub version: DateTime,
}

impl Deref for DeleteBody {
    type Target = DateTime;

    fn deref(&self) -> (version: &DateTime)
        ensures
            *version == self.version,
    {
        &self.version
    }
}

/// Request body for merging resources.
pub struct MergeBody<T> {
    /// ID of the source resource to be removed.
    pub remove: T,
    /// ID of the target resource to merge into.
    pub merge_to: T,
    /// Version of the source resource.
    pub remove_version: DateTime,
    /// Version of the target resource.
    pub merge_to_version: DateTime,
}

/// Represents parameters of a request to retrieve one or more resources.
pub struct ResourceParams<F: ResourceField> {
    /// Query search string
    pub query: Option<String>,
    /// The fields to include in the response.
    pub fields: Mask<F>,
}

impl<F: ResourceField> Clone for ResourceParams<F> {
    fn clone(&self) -> (copy: Self)
        ensures
            match (self.query, copy.query) {
                (Some(query), Some(copied)) => copied@ == query@,
                (None, None) => true,
                _ => false,
            },
            copy.fields == self.fields,
    {
        let query = match &self.query {
            Some(query) => Some(query.clone()),
            None => None,
        };
        ResourceParams { query, fields: self.fields }
    }
}

impl<F: ResourceField> ResourceParams<F> {
    /// The search string, which is empty where the request has none.
    pub fn criteria(&self) -> (criteria: &str)
        ensures
            criteria@ == match self.query {
                Some(query) => query@,
                None => ""@,
            },
    {
        match &self.query {
            Some(query) => query.as_str(),
            None => "",
        }
    }
}

/// How many results a page has where the request does not say.
pub const DEFAULT_LIMIT: u64 = 42;

/// How many results a page can have.
pub const MAX_LIMIT: u64 = 1000;

/// A number of results that is not zero.
#[derive(Clone, Copy)]
pub struct PageLimit(u64);

impl PageLimit {
    #[verifier::type_invariant]
    spec fn is_positive(self) -> bool {
        self.0 > 0
    }

    /// The number.
    pub closed spec fn number(self) -> u64 {
        self.0
    }

    /// The limit of the given number, unless that is zero.
    pub fn new(number: u64) -> (limit: Option<Self>)
        ensures
            match limit {
                Some(limit) => limit.number() == number && number > 0,
                None => number == 0,
            },
    {
        if number > 0 {
            Some(PageLimit(number))
        } else {
            None
        }
    }

    /// The number.
    pub fn get(&self) -> (number: u64)
        ensures
            number == self.number(),
            number > 0,
    {
        proof {
            use_type_invariant(self);
        }
        self.0
    }
}

/// How many results a page has.
pub open spec fn page_limit(requested: Option<PageLimit>) -> int {
    let wanted = match requested {
        Some(limit) => limit.number(),
        None => DEFAULT_LIMIT,
    };
    if wanted < MAX_LIMIT {
        wanted as int
    } else {
        MAX_LIMIT as int
    }
}

/// Represents parameters of a request to retrieve multiple resources, paged.
#[derive(Clone, Copy)]
pub struct PageParams {
    /// Starting position in the result set
    pub offset: Option<u64>,
    /// Maximum number of results to return
    pub limit: Option<PageLimit>,
}

impl PageParams {
    /// How many results a page has.
    pub fn limit(&self) -> (limit: u64)
        ensures
            limit == page_limit(self.limit),
            1 <= limit <= MAX_LIMIT,
    {
        let wanted: u64 = match self.limit {
            Some(limit) => limit.get(),
            None => DEFAULT_LIMIT,
        };
        if wanted < MAX_LIMIT {
            wanted
        } else {
            MAX_LIMIT
        }
    }
}

/// A result of search operation that doesn't involve paging.
pub struct UnpagedResponse<T> {
    pub results: Vec<T>,
}

/// A result of search operation that involves paging.
pub struct PagedResponse<T> {
    /// The query passed in the request.
    pub query: Option<String>,
    /// The record starting offset, passed in the request.
    pub offset: u64,
    /// Number of records on one page.
    pub limit: u64,
    /// How many resources were found. To get the page count, divide this number by `limit`.
    pub total: u64,
    pub results: Vec<T>,
}

} // verus!
