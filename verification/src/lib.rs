//! Engine for republishing an archived collection of posts at a shifted
//! cadence: date re-projection across eras, persistent rotation state,
//! wait scheduling, chunked media-upload protocol, and post composition.

pub mod auth;
pub mod collection;
pub mod compose;
pub mod dates;
pub mod iteration;
pub mod rotation;
pub mod schedule;
pub mod text;
pub mod upload;
