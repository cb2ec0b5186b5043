//! What the operations are for: laws that say what a call gives in terms of what goes into it, and
//! how the results of two calls relate.

pub mod comments;
pub mod posts;
pub mod previews;
pub mod requests;
pub mod rows;
pub mod tags;
pub mod users;
