//! The wire protocol of each provider.

pub mod query;
pub mod simkl;
pub mod tmdb;
pub mod tvdb;

pub use simkl::SimklClient;
pub use tmdb::TmdbClient;
pub use tvdb::TvdbClient;
