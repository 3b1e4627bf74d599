//! What every provider offers.

use vstd::prelude::*;
use crate::error::AppError;
use crate::http::NOT_IMPLEMENTED;
use crate::metadata::models::{MediaType, MetadataResult, MetadataResultView, ServiceType};

verus! {

/// What every metadata catalog offers. Nothing is claimed of what an
/// implementation answers: whoever calls one handles every answer.
pub trait MetadataProvider: Send + Sync {
    /// The provider's name, for reports.
    fn name(&self) -> &'static str;

    /// Which provider this is.
    fn service(&self) -> ServiceType;

    /// Searches the catalog for a title. `year` narrows the search where it
    /// is given.
    fn search(&self, title: &str, media_type: MediaType, year: Option<i32>) -> Result<
        Vec<MetadataResult>,
        AppError,
    >;

    /// Fetches the details of the work that the provider knows under `id`.
    /// A provider that does not offer details need not write this: it then
    /// fails with a `MetadataError` of status `NOT_IMPLEMENTED`.
    fn get_details(&self, id: &str, media_type: MediaType) -> Result<MetadataResult, AppError> {
        let _ = id;
        let _ = media_type;
        Err(AppError::MetadataError { provider: self.service(), status: NOT_IMPLEMENTED })
    }
}

/// The views of a list of results, in order.
pub open spec fn results_view(results: Seq<MetadataResult>) -> Seq<MetadataResultView> {
    Seq::new(results.len(), |i: int| results[i]@)
}

} // verus!
