//! Typed request building for the list endpoints of a video platform's data
//! API: parameter enumerations, request builders with their validation rules,
//! resource models and the error taxonomy.
//!
//! A request starts at a [`YouTube`] session, goes through the builder of an
//! endpoint and ends in [`ListApi::request`], which gives the query parameters
//! to send or the first rule that the configuration breaks.

pub mod api;
pub mod channels;
pub mod error;
pub mod handler;
pub mod model;
pub mod params;
pub mod search;
pub mod status;
pub mod text;
pub mod time;
pub mod videos;

pub use crate::api::{DataApi, ListApi};
pub use crate::error::{Error, Result};
pub use crate::handler::YouTube;
pub use crate::model::{ListResponse, Localization, PageInfo, Thumbnail, ThumbnailKind};
