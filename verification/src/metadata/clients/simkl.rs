//! Simkl: requests, answers and their records.

use vstd::prelude::*;
use vstd::std_specs::convert::FromSpecImpl;
use crate::config::SimklConfig;
use crate::error::AppError;
use crate::http::{
    Exchange, HttpMethod, HttpRequest, HttpRequestView, Param, bearer, push_param, settle,
    spec_bearer, spec_settle,
};
use crate::metadata::models::{
    MediaIds, MediaIdsView, MediaType, MetadataResult, MetadataResultView, ServiceType, clone_opt,
    known, normalize_id, opt_view,
};
use crate::metadata::provider::results_view;
use crate::metadata::clients::query::{push_year, spec_year_param};
use crate::text::joined;

verus! {

/// The identifiers in a Simkl answer.
#[derive(Debug, Clone, PartialEq, Eq)]
pub struct SimklIds {
    pub simkl: String,
    pub imdb: Option<String>,
    pub tmdb: Option<String>,
    pub tvdb: Option<String>,
}

/// One item of a Simkl search answer.
#[derive(Debug, Clone, PartialEq, Eq)]
pub struct SimklSearchItem {
    pub title: String,
    pub year: Option<String>,
    pub ids: SimklIds,
}

/// A Simkl details answer.
#[derive(Debug, Clone, PartialEq, Eq)]
pub struct SimklDetailsResponse {
    pub title: String,
    pub year: Option<String>,
    pub ids: SimklIds,
}

/// The record for a Simkl answer. Title and year are taken as they come; of
/// the identifiers, an empty one counts as absent. Simkl does not say what
/// kind of work an item is, and the record says `Movie`.
pub open spec fn simkl_result(title: Seq<char>, year: Option<Seq<char>>, ids: SimklIds)
    -> MetadataResultView {
    MetadataResultView {
        ids: MediaIdsView {
            simkl: known(Some(ids.simkl@)),
            tvdb: known(opt_view(ids.tvdb)),
            tmdb: known(opt_view(ids.tmdb)),
            mal: None,
            imdb: known(opt_view(ids.imdb)),
        },
        title,
        year,
        media_type: MediaType::Movie,
    }
}

/// The record for one item of a search answer.
pub open spec fn simkl_item_result(item: SimklSearchItem) -> MetadataResultView {
    simkl_result(item.title@, opt_view(item.year), item.ids)
}

/// The record for a details answer.
pub open spec fn simkl_details_result(details: SimklDetailsResponse) -> MetadataResultView {
    simkl_result(details.title@, opt_view(details.year), details.ids)
}

/// The records for the items of a search answer, in order.
pub open spec fn simkl_results(items: Seq<SimklSearchItem>) -> Seq<MetadataResultView> {
    Seq::new(items.len(), |i: int| simkl_item_result(items[i]))
}

fn convert(title: &String, year: &Option<String>, ids: &SimklIds) -> (out: MetadataResult)
    ensures
        out@ == simkl_result(title@, opt_view(*year), *ids),
        out.wf(),
{
    let out = MetadataResult {
        ids: MediaIds {
            simkl: normalize_id(Some(ids.simkl.clone())),
            tvdb: normalize_id(clone_opt(&ids.tvdb)),
            tmdb: normalize_id(clone_opt(&ids.tmdb)),
            mal: None,
            imdb: normalize_id(clone_opt(&ids.imdb)),
        },
        title: title.clone(),
        year: clone_opt(year),
        media_type: MediaType::Movie,
    };
    out
}

impl From<SimklSearchItem> for MetadataResult {
    fn from(item: SimklSearchItem) -> (out: MetadataResult)
        ensures
            out@ == simkl_item_result(item),
            out.wf(),
    {
        convert(&item.title, &item.year, &item.ids)
    }
}

impl FromSpecImpl<SimklSearchItem> for MetadataResult {
    open spec fn obeys_from_spec() -> bool {
        false
    }

    open spec fn from_spec(item: SimklSearchItem) -> MetadataResult {
        arbitrary()
    }
}

impl From<SimklDetailsResponse> for MetadataResult {
    fn from(details: SimklDetailsResponse) -> (out: MetadataResult)
        ensures
            out@ == simkl_details_result(details),
            out.wf(),
    {
        convert(&details.title, &details.year, &details.ids)
    }
}

impl FromSpecImpl<SimklDetailsResponse> for MetadataResult {
    open spec fn obeys_from_spec() -> bool {
        false
    }

    open spec fn from_spec(details: SimklDetailsResponse) -> MetadataResult {
        arbitrary()
    }
}

/// A field that the Simkl answer leaves out is absent in the record, and
/// the record holds no identifier for MyAnimeList, of which Simkl says
/// nothing.
pub proof fn lemma_simkl_absent_stays_absent(
    title: Seq<char>,
    year: Option<Seq<char>>,
    ids: SimklIds,
)
    ensures
        year is None ==> simkl_result(title, year, ids).year is None,
        ids.imdb is None ==> simkl_result(title, year, ids).ids.imdb is None,
        ids.tmdb is None ==> simkl_result(title, year, ids).ids.tmdb is None,
        ids.tvdb is None ==> simkl_result(title, year, ids).ids.tvdb is None,
        simkl_result(title, year, ids).ids.mal is None,
        simkl_result(title, year, ids).ids.wf(),
{
}

/// The `type` parameter of a Simkl search.
pub open spec fn spec_search_kind(media_type: MediaType) -> Seq<char> {
    match media_type {
        MediaType::Movie => "movie"@,
        MediaType::Series => "show"@,
    }
}

/// The path segment of a Simkl details request.
pub open spec fn spec_details_kind(media_type: MediaType) -> Seq<char> {
    match media_type {
        MediaType::Movie => "movies"@,
        MediaType::Series => "shows"@,
    }
}

/// The headers of every Simkl request: the client secret as bearer token,
/// the client id as API key.
pub open spec fn spec_simkl_headers(config: SimklConfig) -> Seq<(Seq<char>, Seq<char>)> {
    seq![
        ("Authorization"@, spec_bearer(config.client_secret@)),
        ("simkl-api-key"@, config.client_id@),
    ]
}

/// The Simkl search request for a title.
pub open spec fn spec_simkl_search_request(
    config: SimklConfig,
    title: Seq<char>,
    media_type: MediaType,
    year: Option<i32>,
) -> HttpRequestView {
    HttpRequestView {
        method: HttpMethod::Get,
        url: "https://api.simkl.com/search"@,
        query: seq![("q"@, title), ("type"@, spec_search_kind(media_type))] + spec_year_param(
            year,
        ),
        headers: spec_simkl_headers(config),
        body: None,
    }
}

/// The Simkl details request for an identifier.
pub open spec fn spec_simkl_details_request(
    config: SimklConfig,
    simkl_id: Seq<char>,
    media_type: MediaType,
) -> HttpRequestView {
    HttpRequestView {
        method: HttpMethod::Get,
        url: "https://api.simkl.com/"@ + spec_details_kind(media_type) + "/"@ + simkl_id
            + "?extended=full"@,
        query: Seq::empty(),
        headers: spec_simkl_headers(config),
        body: None,
    }
}

/// The Simkl catalog: how to ask it and how to read its answers.
#[derive(Debug, Clone)]
pub struct SimklClient {
    pub config: SimklConfig,
}

impl SimklClient {
    pub fn new(config: SimklConfig) -> (client: SimklClient)
        ensures
            client.config == config,
    {
        SimklClient { config }
    }

    /// The provider's name.
    pub fn name(&self) -> (name: &'static str)
        ensures
            name@ == "Simkl"@,
    {
        "Simkl"
    }

    fn headers(&self) -> (headers: Vec<Param>)
        ensures
            crate::http::params_view(headers@) == spec_simkl_headers(self.config),
    {
        let mut headers: Vec<Param> = Vec::new();
        push_param(&mut headers, "Authorization", bearer(self.config.client_secret.as_str()));
        push_param(&mut headers, "simkl-api-key", self.config.client_id.clone());
        headers
    }

    /// The request that searches Simkl for a title.
    pub fn search_request(&self, title: &str, media_type: MediaType, year: Option<i32>) -> (request:
        HttpRequest)
        ensures
            request@ == spec_simkl_search_request(self.config, title@, media_type, year),
    {
        let kind = match media_type {
            MediaType::Movie => "movie",
            MediaType::Series => "show",
        };
        let mut query: Vec<Param> = Vec::new();
        push_param(&mut query, "q", title.to_owned());
        push_param(&mut query, "type", kind.to_owned());
        push_year(&mut query, year);
        let request = HttpRequest {
            method: HttpMethod::Get,
            url: "https://api.simkl.com/search".to_owned(),
            query,
            headers: self.headers(),
            body: None,
        };
        assert(request@.query =~= spec_simkl_search_request(
            self.config,
            title@,
            media_type,
            year,
        ).query);
        request
    }

    /// The request that fetches the details of a Simkl identifier.
    pub fn details_request(&self, simkl_id: &str, media_type: MediaType) -> (request: HttpRequest)
        ensures
            request@ == spec_simkl_details_request(self.config, simkl_id@, media_type),
    {
        let kind = match media_type {
            MediaType::Movie => "movies",
            MediaType::Series => "shows",
        };
        let mut url = joined("https://api.simkl.com/", kind);
        url.append("/");
        url.append(simkl_id);
        url.append("?extended=full");
        let request = HttpRequest {
            method: HttpMethod::Get,
            url,
            query: Vec::new(),
            headers: self.headers(),
            body: None,
        };
        assert(request@.query =~= Seq::empty());
        request
    }

    /// The records of a search, from how the exchange ended. A successful
    /// answer gives one record for each item, in order; anything else gives
    /// the error of `spec_settle`.
    pub fn search_results(exchange: Exchange<Vec<SimklSearchItem>>) -> (outcome: Result<
        Vec<MetadataResult>,
        AppError,
    >)
        ensures
            match spec_settle(ServiceType::Simkl, exchange) {
                Ok(items) => outcome is Ok && results_view(outcome->Ok_0@) == simkl_results(
                    items@,
                ) && forall|i: int| 0 <= i < outcome->Ok_0@.len() ==> outcome->Ok_0@[i].wf(),
                Err(e) => outcome is Err && outcome->Err_0@ == e,
            },
    {
        match settle(ServiceType::Simkl, exchange) {
            Ok(items) => {
                let mut results: Vec<MetadataResult> = Vec::new();
                let mut i: usize = 0;
                while i < items.len()
                    invariant
                        i <= items.len(),
                        results@.len() == i,
                        forall|j: int| 0 <= j < i ==> results@[j]@ == simkl_item_result(items@[j]),
                        forall|j: int| 0 <= j < i ==> results@[j].wf(),
                    decreases items.len() - i,
                {
                    let item = &items[i];
                    results.push(convert(&item.title, &item.year, &item.ids));
                    i += 1;
                }
                Ok(results)
            },
            Err(e) => Err(e),
        }
    }

    /// The record of a details request, from how the exchange ended.
    pub fn details_result(exchange: Exchange<SimklDetailsResponse>) -> (outcome: Result<
        MetadataResult,
        AppError,
    >)
        ensures
            match spec_settle(ServiceType::Simkl, exchange) {
                Ok(details) => outcome is Ok && outcome->Ok_0@ == simkl_details_result(details)
                    && outcome->Ok_0.wf(),
                Err(e) => outcome is Err && outcome->Err_0@ == e,
            },
    {
        match settle(ServiceType::Simkl, exchange) {
            Ok(details) => Ok(MetadataResult::from(details)),
            Err(e) => Err(e),
        }
    }
}

} // verus!
