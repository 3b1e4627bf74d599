//! The metadata providers: what they are asked, what their answers mean,
//! and how the answers of several of them become one record.

pub mod clients;
pub mod engine;
pub mod models;
pub mod normalize;
pub mod provider;
pub mod rate_limiter;
pub mod resolver;

pub use clients::{SimklClient, TmdbClient, TvdbClient};
pub use models::{
    IdKey, MediaIds, MediaIdsView, MediaType, MetadataResult, MetadataResultView, PriorityOrder,
    RateLimit, RateLimitConfig, ServiceType,
};
pub use provider::MetadataProvider;
pub use rate_limiter::{Admission, RateLimiter};
