//! Assembly of the resources that an image board serves.

pub mod api;
pub mod config;
pub mod content;
pub mod extract;
pub mod laws;
pub mod model;
pub mod resource;
pub mod text;
