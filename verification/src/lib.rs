//! Core of a log-search gateway: request validation, time-range resolution,
//! query translation for the search backend, tolerant response conversion,
//! and distinct-service enumeration with a paginated fallback scan.

pub mod clock;
pub mod config;
pub mod error;
pub mod query;
pub mod quickwit;
pub mod raw;
pub mod services;
pub mod text;

pub use config::Config;
pub use error::AppError;
pub use query::SearchRequest;
pub use quickwit::{BackendQuery, LogHit, SearchResponse};
