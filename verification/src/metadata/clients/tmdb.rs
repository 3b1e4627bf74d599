//! TMDB: requests, answers and their records.

use vstd::prelude::*;
use vstd::std_specs::convert::FromSpecImpl;
use crate::config::TmdbConfig;
use crate::error::AppError;
use crate::http::{
    Exchange, HttpMethod, HttpRequest, HttpRequestView, Param, bearer, params_view, push_param,
    settle, spec_bearer, spec_settle,
};
use crate::metadata::clients::query::{push_year, spec_year_param};
use crate::metadata::models::{
    MediaIds, MediaIdsView, MediaType, MetadataResult, MetadataResultView, ServiceType, opt_view,
};
use crate::metadata::normalize::{
    infer_media_type, pick_title, spec_infer_media_type, text_or_empty, year_from, year_of,
};
use crate::metadata::provider::results_view;
use crate::text::{decimal, decimal_string, joined, lemma_decimal_nonempty};

verus! {

/// A TMDB search answer.
#[derive(Debug, Clone, PartialEq, Eq)]
pub struct TmdbSearchResponse {
    pub results: Vec<TmdbItem>,
}

/// One item of a TMDB search answer. `title` is the movie-style title and
/// `name` the series-style one; the one that does not apply is empty.
#[derive(Debug, Clone, PartialEq, Eq)]
pub struct TmdbItem {
    pub id: i32,
    pub title: String,
    pub name: String,
    pub release_date: Option<String>,
    pub first_air_date: Option<String>,
    pub media_type: Option<String>,
}

/// A TMDB details answer.
#[derive(Debug, Clone, PartialEq, Eq)]
pub struct TmdbDetailsResponse {
    pub id: i32,
    pub title: Option<String>,
    pub name: Option<String>,
    pub release_date: Option<String>,
    pub first_air_date: Option<String>,
    pub external_ids: TmdbExternalIds,
}

/// The identifiers of other catalogs in a TMDB details answer.
#[derive(Debug, Clone, PartialEq, Eq)]
pub struct TmdbExternalIds {
    pub imdb_id: Option<String>,
    pub tvdb_id: Option<i32>,
}

/// The decimal notation of an optional number.
pub open spec fn opt_decimal(n: Option<i32>) -> Option<Seq<char>> {
    match n {
        Some(v) => Some(decimal(v as int)),
        None => None,
    }
}

/// The record for one item of a search answer: the TMDB identifier in
/// decimal notation, the movie-style title before the series-style one, the
/// year of the release date before that of the first airing, and the kind
/// that the item declares or that its titles suggest.
pub open spec fn tmdb_item_result(item: TmdbItem) -> MetadataResultView {
    MetadataResultView {
        ids: MediaIdsView { tmdb: Some(decimal(item.id as int)), ..MediaIdsView::empty() },
        title: pick_title(item.title@, item.name@),
        year: year_from(opt_view(item.release_date), opt_view(item.first_air_date)),
        media_type: spec_infer_media_type(opt_view(item.media_type), item.title@),
    }
}

/// The record for a details answer. It holds the TVDB identifier too where
/// the answer has one. A details answer declares no kind.
pub open spec fn tmdb_details_result(details: TmdbDetailsResponse) -> MetadataResultView {
    MetadataResultView {
        ids: MediaIdsView {
            tmdb: Some(decimal(details.id as int)),
            tvdb: opt_decimal(details.external_ids.tvdb_id),
            ..MediaIdsView::empty()
        },
        title: pick_title(
            text_or_empty(opt_view(details.title)),
            text_or_empty(opt_view(details.name)),
        ),
        year: year_from(opt_view(details.release_date), opt_view(details.first_air_date)),
        media_type: spec_infer_media_type(None, text_or_empty(opt_view(details.title))),
    }
}

/// The records for the items of a search answer, in order.
pub open spec fn tmdb_results(items: Seq<TmdbItem>) -> Seq<MetadataResultView> {
    Seq::new(items.len(), |i: int| tmdb_item_result(items[i]))
}

fn title_of(movie_title: &str, series_title: &str) -> (title: String)
    ensures
        title@ == pick_title(movie_title@, series_title@),
{
    if !movie_title.is_empty() {
        movie_title.to_owned()
    } else {
        series_title.to_owned()
    }
}

fn text_of(text: &Option<String>) -> (out: &str)
    ensures
        out@ == text_or_empty(opt_view(*text)),
{
    match text {
        Some(t) => t.as_str(),
        None => {
            proof {
                reveal_strlit("");
            }
            ""
        },
    }
}

fn convert_item(item: &TmdbItem) -> (out: MetadataResult)
    ensures
        out@ == tmdb_item_result(*item),
        out.wf(),
{
    let out = MetadataResult {
        ids: MediaIds {
            simkl: None,
            tvdb: None,
            tmdb: Some(decimal_string(item.id)),
            mal: None,
            imdb: None,
        },
        title: title_of(item.title.as_str(), item.name.as_str()),
        year: year_of(&item.release_date, &item.first_air_date),
        media_type: infer_media_type(&item.media_type, item.title.as_str()),
    };
    proof {
        lemma_decimal_nonempty(item.id as int);
    }
    out
}

fn convert_details(details: &TmdbDetailsResponse) -> (out: MetadataResult)
    ensures
        out@ == tmdb_details_result(*details),
        out.wf(),
{
    let tvdb = match details.external_ids.tvdb_id {
        Some(id) => Some(decimal_string(id)),
        None => None,
    };
    let movie_title = text_of(&details.title);
    let out = MetadataResult {
        ids: MediaIds {
            simkl: None,
            tvdb,
            tmdb: Some(decimal_string(details.id)),
            mal: None,
            imdb: None,
        },
        title: title_of(movie_title, text_of(&details.name)),
        year: year_of(&details.release_date, &details.first_air_date),
        media_type: infer_media_type(&None, movie_title),
    };
    proof {
        lemma_decimal_nonempty(details.id as int);
        if details.external_ids.tvdb_id is Some {
            lemma_decimal_nonempty(details.external_ids.tvdb_id->0 as int);
        }
    }
    out
}

impl From<TmdbItem> for MetadataResult {
    fn from(item: TmdbItem) -> (out: MetadataResult)
        ensures
            out@ == tmdb_item_result(item),
            out.wf(),
    {
        convert_item(&item)
    }
}

impl FromSpecImpl<TmdbItem> for MetadataResult {
    open spec fn obeys_from_spec() -> bool {
        false
    }

    open spec fn from_spec(item: TmdbItem) -> MetadataResult {
        arbitrary()
    }
}

impl From<TmdbDetailsResponse> for MetadataResult {
    fn from(details: TmdbDetailsResponse) -> (out: MetadataResult)
        ensures
            out@ == tmdb_details_result(details),
            out.wf(),
    {
        convert_details(&details)
    }
}

impl FromSpecImpl<TmdbDetailsResponse> for MetadataResult {
    open spec fn obeys_from_spec() -> bool {
        false
    }

    open spec fn from_spec(details: TmdbDetailsResponse) -> MetadataResult {
        arbitrary()
    }
}

/// A field that a TMDB item leaves out is absent in the record: without a
/// date there is no year, and no identifier but TMDB's own is set.
pub proof fn lemma_tmdb_item_absent_stays_absent(item: TmdbItem)
    ensures
        item.release_date is None && item.first_air_date is None ==> tmdb_item_result(
            item,
        ).year is None,
        tmdb_item_result(item).ids.simkl is None,
        tmdb_item_result(item).ids.tvdb is None,
        tmdb_item_result(item).ids.mal is None,
        tmdb_item_result(item).ids.imdb is None,
        item.title@.len() == 0 && item.name@.len() == 0 ==> tmdb_item_result(item).title.len()
            == 0,
{
}

/// A field that a TMDB details answer leaves out is absent in the record.
pub proof fn lemma_tmdb_details_absent_stays_absent(details: TmdbDetailsResponse)
    ensures
        details.release_date is None && details.first_air_date is None ==> tmdb_details_result(
            details,
        ).year is None,
        details.external_ids.tvdb_id is None ==> tmdb_details_result(details).ids.tvdb is None,
        tmdb_details_result(details).ids.simkl is None,
        tmdb_details_result(details).ids.mal is None,
        tmdb_details_result(details).ids.imdb is None,
        details.title is None && details.name is None ==> tmdb_details_result(details).title.len()
            == 0,
{
}

/// The path segment that names the kind of work to TMDB.
pub open spec fn spec_tmdb_kind(media_type: MediaType) -> Seq<char> {
    match media_type {
        MediaType::Movie => "movie"@,
        MediaType::Series => "tv"@,
    }
}

/// The header of every TMDB request: the configured token as bearer token.
pub open spec fn spec_tmdb_headers(config: TmdbConfig) -> Seq<(Seq<char>, Seq<char>)> {
    seq![("Authorization"@, spec_bearer(config.access_token@))]
}

/// The TMDB search request for a title.
pub open spec fn spec_tmdb_search_request(
    config: TmdbConfig,
    title: Seq<char>,
    media_type: MediaType,
    year: Option<i32>,
) -> HttpRequestView {
    HttpRequestView {
        method: HttpMethod::Get,
        url: "https://api.themoviedb.org/3/search/"@ + spec_tmdb_kind(media_type),
        query: seq![("query"@, title), ("include_adult"@, "false"@)] + spec_year_param(year),
        headers: spec_tmdb_headers(config),
        body: None,
    }
}

/// The TMDB details request for an identifier.
pub open spec fn spec_tmdb_details_request(
    config: TmdbConfig,
    tmdb_id: Seq<char>,
    media_type: MediaType,
) -> HttpRequestView {
    HttpRequestView {
        method: HttpMethod::Get,
        url: "https://api.themoviedb.org/3/"@ + spec_tmdb_kind(media_type) + "/"@ + tmdb_id
            + "?append_to_response=external_ids"@,
        query: Seq::empty(),
        headers: spec_tmdb_headers(config),
        body: None,
    }
}

/// The TMDB catalog: how to ask it and how to read its answers.
#[derive(Debug, Clone)]
pub struct TmdbClient {
    pub config: TmdbConfig,
}

impl TmdbClient {
    pub fn new(config: TmdbConfig) -> (client: TmdbClient)
        ensures
            client.config == config,
    {
        TmdbClient { config }
    }

    /// The provider's name.
    pub fn name(&self) -> (name: &'static str)
        ensures
            name@ == "TMDB"@,
    {
        "TMDB"
    }

    fn headers(&self) -> (headers: Vec<Param>)
        ensures
            params_view(headers@) == spec_tmdb_headers(self.config),
    {
        let mut headers: Vec<Param> = Vec::new();
        push_param(&mut headers, "Authorization", bearer(self.config.access_token.as_str()));
        headers
    }

    fn kind(media_type: MediaType) -> (kind: &'static str)
        ensures
            kind@ == spec_tmdb_kind(media_type),
    {
        match media_type {
            MediaType::Movie => "movie",
            MediaType::Series => "tv",
        }
    }

    /// The request that searches TMDB for a title.
    pub fn search_request(&self, title: &str, media_type: MediaType, year: Option<i32>) -> (request:
        HttpRequest)
        ensures
            request@ == spec_tmdb_search_request(self.config, title@, media_type, year),
    {
        let mut query: Vec<Param> = Vec::new();
        push_param(&mut query, "query", title.to_owned());
        push_param(&mut query, "include_adult", "false".to_owned());
        push_year(&mut query, year);
        let request = HttpRequest {
            method: HttpMethod::Get,
            url: joined("https://api.themoviedb.org/3/search/", Self::kind(media_type)),
            query,
            headers: self.headers(),
            body: None,
        };
        assert(request@.query =~= spec_tmdb_search_request(
            self.config,
            title@,
            media_type,
            year,
        ).query);
        request
    }

    /// The request that fetches the details of a TMDB identifier.
    pub fn details_request(&self, tmdb_id: &str, media_type: MediaType) -> (request: HttpRequest)
        ensures
            request@ == spec_tmdb_details_request(self.config, tmdb_id@, media_type),
    {
        let mut url = joined("https://api.themoviedb.org/3/", Self::kind(media_type));
        url.append("/");
        url.append(tmdb_id);
        url.append("?append_to_response=external_ids");
        let request = HttpRequest {
            method: HttpMethod::Get,
            url,
            query: Vec::new(),
            headers: self.headers(),
            body: None,
        };
        assert(request@.query =~= Seq::empty());
        request
    }

    /// The records of a search, from how the exchange ended. A successful
    /// answer gives one record for each item, in order; anything else gives
    /// the error of `spec_settle`.
    pub fn search_results(exchange: Exchange<TmdbSearchResponse>) -> (outcome: Result<
        Vec<MetadataResult>,
        AppError,
    >)
        ensures
            match spec_settle(ServiceType::Tmdb, exchange) {
                Ok(answer) => outcome is Ok && results_view(outcome->Ok_0@) == tmdb_results(
                    answer.results@,
                ) && forall|i: int| 0 <= i < outcome->Ok_0@.len() ==> outcome->Ok_0@[i].wf(),
                Err(e) => outcome is Err && outcome->Err_0@ == e,
            },
    {
        match settle(ServiceType::Tmdb, exchange) {
            Ok(answer) => {
                let mut results: Vec<MetadataResult> = Vec::new();
                let mut i: usize = 0;
                while i < answer.results.len()
                    invariant
                        i <= answer.results.len(),
                        results@.len() == i,
                        forall|j: int|
                            0 <= j < i ==> results@[j]@ == tmdb_item_result(answer.results@[j]),
                        forall|j: int| 0 <= j < i ==> results@[j].wf(),
                    decreases answer.results.len() - i,
                {
                    results.push(convert_item(&answer.results[i]));
                    i += 1;
                }
                Ok(results)
            },
            Err(e) => Err(e),
        }
    }

    /// The record of a details request, from how the exchange ended.
    pub fn details_result(exchange: Exchange<TmdbDetailsResponse>) -> (outcome: Result<
        MetadataResult,
        AppError,
    >)
        ensures
            match spec_settle(ServiceType::Tmdb, exchange) {
                Ok(details) => outcome is Ok && outcome->Ok_0@ == tmdb_details_result(details)
                    && outcome->Ok_0.wf(),
                Err(e) => outcome is Err && outcome->Err_0@ == e,
            },
    {
        match settle(ServiceType::Tmdb, exchange) {
            Ok(details) => Ok(convert_details(&details)),
            Err(e) => Err(e),
        }
    }
}

} // verus!
