//! Business rules of a meal planner: fixed vocabularies, ISO-week accounting
//! and the validation engine that gates meal entries.

pub mod calendar;
pub mod error;
pub mod models;
pub mod repository;
pub mod services;
pub mod text;

pub use error::{ApiError, ApiResult};
