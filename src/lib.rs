//! Assembly of an RSS 2.0 feed from a batch of article records.
pub mod channel;
pub mod clock;
pub mod digest;
pub mod errors;
pub mod escape;
pub mod feed;
pub mod handler;
pub mod identity;
pub mod item;
pub mod laws;
pub mod link;
pub mod model;
pub mod published;
pub mod text;
