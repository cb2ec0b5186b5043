//! What the resources need to know of the site that serves them.

use crate::model::{AvatarStyle, MimeType};
use vstd::prelude::*;

verus! {

/// Where the site serves its files. How a URL is made up is the site's own matter: contracts
/// say which URL was asked for, and with which arguments.
pub trait Config {
    /// The URL of the avatar that the avatar service shows for a name.
    fn gravatar_url(&self, lowercase_name: &str) -> String;

    /// The URL of the avatar that the user of that name uploaded.
    fn custom_avatar_url(&self, lowercase_name: &str) -> String;

    /// The URL of the avatar of the user of that name.
    fn avatar_url(&self, lowercase_name: &str, avatar_style: AvatarStyle) -> String;

    /// The URL of a post's content.
    fn content_url(
        &self,
        post_id: i64,
        custom_thumbnail_size: Option<i64>,
        mime_type: MimeType,
    ) -> String;

    /// The URL of a post's thumbnail.
    fn thumbnail_url(&self, post_id: i64, custom_thumbnail_size: Option<i64>) -> String;
}

/// One question to the site has one answer: two answers to the same question are the same text.
pub open spec fn answers_once<C: Config>(config: &C) -> bool {
    &&& forall|a: &str, b: &str, x: String, y: String|
        a@ == b@ && #[trigger] call_ensures(C::gravatar_url, (config, a), x)
            && #[trigger] call_ensures(C::gravatar_url, (config, b), y) ==> x@ == y@
    &&& forall|a: &str, b: &str, x: String, y: String|
        a@ == b@ && #[trigger] call_ensures(C::custom_avatar_url, (config, a), x)
            && #[trigger] call_ensures(C::custom_avatar_url, (config, b), y) ==> x@ == y@
    &&& forall|a: &str, b: &str, style: AvatarStyle, x: String, y: String|
        a@ == b@ && #[trigger] call_ensures(C::avatar_url, (config, a, style), x)
            && #[trigger] call_ensures(C::avatar_url, (config, b, style), y) ==> x@ == y@
    &&& forall|id: i64, size: Option<i64>, mime_type: MimeType, x: String, y: String|
        #[trigger] call_ensures(C::content_url, (config, id, size, mime_type), x)
            && #[trigger] call_ensures(C::content_url, (config, id, size, mime_type), y) ==> x@
            == y@
    &&& forall|id: i64, size: Option<i64>, x: String, y: String|
        #[trigger] call_ensures(C::thumbnail_url, (config, id, size), x)
            && #[trigger] call_ensures(C::thumbnail_url, (config, id, size), y) ==> x@ == y@
}

/// The user whose request is served, if the request is authenticated.
#[derive(Clone, Copy, Debug, PartialEq, Eq, Structural)]
pub struct Client {
    pub id: Option<i64>,
}

/// What a request is served with.
pub struct Context<C: Config> {
    pub config: C,
    pub client: Client,
}

impl<C: Config + Clone> Clone for Context<C> {
    fn clone(&self) -> (copy: Self)
        ensures
            cloned(self.config, copy.config),
            copy.client == self.client,
    {
        Context { config: self.config.clone(), client: self.client }
    }
}

/// The bounds that the site sets.
#[derive(Clone, Copy, Debug)]
pub struct Limits {
    /// The largest width of a preview of a PDF document, in pixels.
    pub max_pdf_width: u16,
    /// The largest height of a preview of a PDF document, in pixels.
    pub max_pdf_height: u16,
}

} // verus!
