//! Resolves the titles of a watch history against several metadata catalogs
//! into one identity record per title.
//!
//! The library decides; it performs no I/O. Whoever drives a browser or
//! sends an HTTP request asks the library what to do next and hands back
//! how it went: the login of the browser session in `scraping`, the
//! providers' requests and answers in `metadata::clients`, the call budget
//! in `metadata::rate_limiter`, and the merge of the providers' answers in
//! `metadata::engine` and `metadata::resolver`.

pub mod config;
pub mod error;
pub mod http;
pub mod json;
pub mod metadata;
pub mod scraping;
pub mod text;
