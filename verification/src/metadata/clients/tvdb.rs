//! TVDB: requests, answers and their records, and the session that
//! exchanges the API key for a token and renews it once when it is refused.

use vstd::prelude::*;
use vstd::std_specs::convert::FromSpecImpl;
use crate::config::TvdbConfig;
use crate::error::{AppError, AppErrorView};
use crate::http::{
    Exchange, HttpMethod, HttpRequest, HttpRequestView, Param, UNAUTHORIZED, bearer,
    is_unauthorized, malformed_body_message, push_param, settle, spec_bearer,
    spec_is_success, spec_settle,
};
use crate::json::{json_string_text, string_literal};
use crate::metadata::models::{
    MediaIds, MediaIdsView, MediaType, MetadataResult, MetadataResultView, RateLimit,
    ServiceType, clone_opt, known, normalize_id, opt_view,
};
use crate::metadata::normalize::{year_from, year_of};
use crate::metadata::provider::results_view;
use crate::text::{decimal, decimal_string, joined, lemma_decimal_nonempty};

verus! {

/// The answer to a TVDB login.
#[derive(Debug, Clone, PartialEq, Eq)]
pub struct TvdbAuthResponse {
    pub token: String,
}

/// A TVDB search answer.
#[derive(Debug, Clone, PartialEq, Eq)]
pub struct TvdbSearchResponse {
    pub data: Vec<TvdbSearchItem>,
}

/// One item of a TVDB search answer.
#[derive(Debug, Clone, PartialEq, Eq)]
pub struct TvdbSearchItem {
    pub id: i32,
    pub series_name: String,
    pub first_aired: Option<String>,
}

/// A TVDB details answer.
#[derive(Debug, Clone, PartialEq, Eq)]
pub struct TvdbDetailsResponse {
    pub data: TvdbDetailsItem,
}

/// The series of a TVDB details answer.
#[derive(Debug, Clone, PartialEq, Eq)]
pub struct TvdbDetailsItem {
    pub id: i32,
    pub series_name: String,
    pub first_aired: Option<String>,
    pub imdb_id: Option<String>,
}

/// The record for a TVDB series: its identifier in decimal notation, its
/// name, the year of its first airing. TVDB knows series only.
pub open spec fn tvdb_result(
    id: i32,
    series_name: Seq<char>,
    first_aired: Option<Seq<char>>,
    imdb_id: Option<Seq<char>>,
) -> MetadataResultView {
    MetadataResultView {
        ids: MediaIdsView {
            tvdb: Some(decimal(id as int)),
            imdb: known(imdb_id),
            ..MediaIdsView::empty()
        },
        title: series_name,
        year: year_from(first_aired, None),
        media_type: MediaType::Series,
    }
}

/// The record for one item of a search answer.
pub open spec fn tvdb_item_result(item: TvdbSearchItem) -> MetadataResultView {
    tvdb_result(item.id, item.series_name@, opt_view(item.first_aired), None)
}

/// The record for the series of a details answer, with its IMDb identifier
/// where the answer has one.
pub open spec fn tvdb_details_result(item: TvdbDetailsItem) -> MetadataResultView {
    tvdb_result(item.id, item.series_name@, opt_view(item.first_aired), opt_view(item.imdb_id))
}

/// The records for the items of a search answer, in order.
pub open spec fn tvdb_results(items: Seq<TvdbSearchItem>) -> Seq<MetadataResultView> {
    Seq::new(items.len(), |i: int| tvdb_item_result(items[i]))
}

fn convert(id: i32, series_name: &String, first_aired: &Option<String>, imdb_id: &Option<String>)
    -> (out: MetadataResult)
    ensures
        out@ == tvdb_result(id, series_name@, opt_view(*first_aired), opt_view(*imdb_id)),
        out.wf(),
{
    let out = MetadataResult {
        ids: MediaIds {
            simkl: None,
            tvdb: Some(decimal_string(id)),
            tmdb: None,
            mal: None,
            imdb: normalize_id(clone_opt(imdb_id)),
        },
        title: series_name.clone(),
        year: year_of(first_aired, &None),
        media_type: MediaType::Series,
    };
    proof {
        lemma_decimal_nonempty(id as int);
    }
    out
}

impl From<TvdbSearchItem> for MetadataResult {
    fn from(item: TvdbSearchItem) -> (out: MetadataResult)
        ensures
            out@ == tvdb_item_result(item),
            out.wf(),
    {
        convert(item.id, &item.series_name, &item.first_aired, &None)
    }
}

impl FromSpecImpl<TvdbSearchItem> for MetadataResult {
    open spec fn obeys_from_spec() -> bool {
        false
    }

    open spec fn from_spec(item: TvdbSearchItem) -> MetadataResult {
        arbitrary()
    }
}

impl From<TvdbDetailsItem> for MetadataResult {
    fn from(item: TvdbDetailsItem) -> (out: MetadataResult)
        ensures
            out@ == tvdb_details_result(item),
            out.wf(),
    {
        convert(item.id, &item.series_name, &item.first_aired, &item.imdb_id)
    }
}

impl FromSpecImpl<TvdbDetailsItem> for MetadataResult {
    open spec fn obeys_from_spec() -> bool {
        false
    }

    open spec fn from_spec(item: TvdbDetailsItem) -> MetadataResult {
        arbitrary()
    }
}

/// A field that a TVDB answer leaves out is absent in the record: without a
/// date of first airing there is no year, without an IMDb identifier none is
/// set, and no identifier of another catalog is made up.
pub proof fn lemma_tvdb_absent_stays_absent(
    id: i32,
    series_name: Seq<char>,
    first_aired: Option<Seq<char>>,
    imdb_id: Option<Seq<char>>,
)
    ensures
        first_aired is None ==> tvdb_result(id, series_name, first_aired, imdb_id).year is None,
        imdb_id is None ==> tvdb_result(id, series_name, first_aired, imdb_id).ids.imdb is None,
        tvdb_result(id, series_name, first_aired, imdb_id).ids.simkl is None,
        tvdb_result(id, series_name, first_aired, imdb_id).ids.tmdb is None,
        tvdb_result(id, series_name, first_aired, imdb_id).ids.mal is None,
        tvdb_result(id, series_name, first_aired, imdb_id).ids.tvdb == Some(decimal(id as int)),
{
}

/// What a call asks of TVDB.
#[derive(Debug, Clone, PartialEq, Eq)]
pub enum TvdbQuery {
    Search { title: String },
    Details { id: String },
}

/// Where a call stands. `retried` says that the call has already met one
/// refusal of its token and authenticated again.
#[derive(Debug, Clone, Copy, PartialEq, Eq, Structural)]
pub enum TvdbStage {
    Authenticating { retried: bool },
    Requesting { retried: bool },
    Finished,
}

/// One call in progress.
#[derive(Debug, Clone, PartialEq, Eq)]
pub struct TvdbCall {
    pub query: TvdbQuery,
    pub stage: TvdbStage,
}

/// The decoded body of an answer to a query.
#[derive(Debug, Clone, PartialEq, Eq)]
pub enum TvdbPayload {
    Search(TvdbSearchResponse),
    Details(TvdbDetailsResponse),
}

/// How the exchange that the last step asked for ended.
#[derive(Debug, Clone, PartialEq, Eq)]
pub enum TvdbReply {
    Login(Exchange<TvdbAuthResponse>),
    Query(Exchange<TvdbPayload>),
}

/// What a call yields.
#[derive(Debug, Clone, PartialEq, Eq)]
pub enum TvdbAnswer {
    Results(Vec<MetadataResult>),
    Details(MetadataResult),
}

/// The mathematical value of a [`TvdbAnswer`].
pub enum TvdbAnswerView {
    Results(Seq<MetadataResultView>),
    Details(MetadataResultView),
}

impl View for TvdbAnswer {
    type V = TvdbAnswerView;

    open spec fn view(&self) -> TvdbAnswerView {
        match *self {
            TvdbAnswer::Results(results) => TvdbAnswerView::Results(results_view(results@)),
            TvdbAnswer::Details(result) => TvdbAnswerView::Details(result@),
        }
    }
}

/// What is to happen next in a call.
#[derive(Debug, PartialEq, Eq)]
pub enum TvdbStep {
    /// Exchange the API key for a token: send the login request and hand
    /// back a `TvdbReply::Login`.
    Authenticate,
    /// Send this request and hand back a `TvdbReply::Query`.
    Query(HttpRequest),
    /// The call is over.
    Done(Result<TvdbAnswer, AppError>),
}

/// The mathematical value of a [`TvdbStep`].
pub enum TvdbStepView {
    Authenticate,
    Query(HttpRequestView),
    Done(Result<TvdbAnswerView, AppErrorView>),
}

impl View for TvdbStep {
    type V = TvdbStepView;

    open spec fn view(&self) -> TvdbStepView {
        match *self {
            TvdbStep::Authenticate => TvdbStepView::Authenticate,
            TvdbStep::Query(request) => TvdbStepView::Query(request@),
            TvdbStep::Done(Ok(answer)) => TvdbStepView::Done(Ok(answer@)),
            TvdbStep::Done(Err(e)) => TvdbStepView::Done(Err(e@)),
        }
    }
}

/// The session after a step, where the call stands, and what is to happen
/// next.
pub struct TvdbTransition {
    pub token: Option<Seq<char>>,
    pub stage: TvdbStage,
    pub step: TvdbStepView,
}

/// The login request: the API key as the one member of a JSON object.
pub open spec fn spec_login_request(config: TvdbConfig) -> HttpRequestView {
    HttpRequestView {
        method: HttpMethod::Post,
        url: "https://api.thetvdb.com/login"@,
        query: Seq::empty(),
        headers: seq![("Content-Type"@, "application/json"@)],
        body: Some("{\"apikey\":"@ + json_string_text(config.api_key@) + "}"@),
    }
}

/// The request for a query, with the token as bearer token.
pub open spec fn spec_query_request(query: TvdbQuery, token: Seq<char>) -> HttpRequestView {
    HttpRequestView {
        method: HttpMethod::Get,
        url: match query {
            TvdbQuery::Search { title } => "https://api.thetvdb.com/search/series?name="@
                + title@,
            TvdbQuery::Details { id } => "https://api.thetvdb.com/series/"@ + id@,
        },
        query: Seq::empty(),
        headers: seq![("Authorization"@, spec_bearer(token))],
        body: None,
    }
}

/// The message of the error for a login that TVDB refused.
pub open spec fn login_refused_message() -> Seq<char> {
    "TVDB authentication failed"@
}

/// The message of the error for a reply that the call did not ask for.
pub open spec fn out_of_turn_message() -> Seq<char> {
    "reply out of turn"@
}

/// The token that a login exchange yields: that of a successful answer. A
/// refusal is an `AuthError`; an exchange that failed, or an answer that
/// could not be decoded, is a `TransportError`.
pub open spec fn spec_login_outcome(exchange: Exchange<TvdbAuthResponse>) -> Result<
    Seq<char>,
    AppErrorView,
> {
    match exchange {
        Exchange::Failed(reason) => Err(AppErrorView::Transport(reason@)),
        Exchange::Replied { status, body } => if spec_is_success(status) {
            match body {
                Some(auth) => Ok(auth.token@),
                None => Err(AppErrorView::Transport(malformed_body_message())),
            }
        } else {
            Err(AppErrorView::Auth(login_refused_message()))
        },
    }
}

/// What a decoded body answers to a query. A body of the other kind counts
/// as one that could not be decoded.
pub open spec fn spec_answer(query: TvdbQuery, payload: TvdbPayload) -> Result<
    TvdbAnswerView,
    AppErrorView,
> {
    match (query, payload) {
        (TvdbQuery::Search { .. }, TvdbPayload::Search(answer)) => Ok(
            TvdbAnswerView::Results(tvdb_results(answer.data@)),
        ),
        (TvdbQuery::Details { .. }, TvdbPayload::Details(answer)) => Ok(
            TvdbAnswerView::Details(tvdb_details_result(answer.data)),
        ),
        _ => Err(AppErrorView::Transport(malformed_body_message())),
    }
}

/// What a call yields once its query was answered with anything but a
/// refusal of the token.
pub open spec fn spec_query_outcome(query: TvdbQuery, exchange: Exchange<TvdbPayload>) -> Result<
    TvdbAnswerView,
    AppErrorView,
> {
    match spec_settle(ServiceType::Tvdb, exchange) {
        Ok(payload) => spec_answer(query, payload),
        Err(e) => Err(e),
    }
}

/// The exchange was answered with the status that refuses the token.
pub open spec fn refuses_token(exchange: Exchange<TvdbPayload>) -> bool {
    exchange matches Exchange::Replied { status, .. } && status == UNAUTHORIZED
}

/// The first step of a call: with a cached token the query goes out at
/// once, without one the session authenticates first.
pub open spec fn spec_begin(token: Option<Seq<char>>, query: TvdbQuery) -> TvdbTransition {
    match token {
        Some(t) => TvdbTransition {
            token,
            stage: TvdbStage::Requesting { retried: false },
            step: TvdbStepView::Query(spec_query_request(query, t)),
        },
        None => TvdbTransition {
            token,
            stage: TvdbStage::Authenticating { retried: false },
            step: TvdbStepView::Authenticate,
        },
    }
}

/// The call ends with the error for a reply that it did not ask for.
pub open spec fn spec_out_of_turn(token: Option<Seq<char>>) -> TvdbTransition {
    TvdbTransition {
        token,
        stage: TvdbStage::Finished,
        step: TvdbStepView::Done(Err(AppErrorView::Transport(out_of_turn_message()))),
    }
}

/// The next step of a call, from the reply to the last one.
///
/// While authenticating, a token lets the query go out and is cached; a
/// failed login ends the call. While requesting, a refusal of the token
/// discards the cached token: the first one has the session authenticate
/// again, the second one ends the call with a `MetadataError`. Any other
/// reply to the query ends the call with its outcome.
pub open spec fn spec_advance(
    token: Option<Seq<char>>,
    query: TvdbQuery,
    stage: TvdbStage,
    reply: TvdbReply,
) -> TvdbTransition {
    match (stage, reply) {
        (TvdbStage::Authenticating { retried }, TvdbReply::Login(exchange)) => {
            match spec_login_outcome(exchange) {
                Ok(fresh) => TvdbTransition {
                    token: Some(fresh),
                    stage: TvdbStage::Requesting { retried },
                    step: TvdbStepView::Query(spec_query_request(query, fresh)),
                },
                Err(e) => TvdbTransition {
                    token,
                    stage: TvdbStage::Finished,
                    step: TvdbStepView::Done(Err(e)),
                },
            }
        },
        (TvdbStage::Requesting { retried }, TvdbReply::Query(exchange)) => {
            if refuses_token(exchange) {
                if retried {
                    TvdbTransition {
                        token: None,
                        stage: TvdbStage::Finished,
                        step: TvdbStepView::Done(
                            Err(
                                AppErrorView::Metadata {
                                    provider: ServiceType::Tvdb,
                                    status: UNAUTHORIZED,
                                },
                            ),
                        ),
                    }
                } else {
                    TvdbTransition {
                        token: None,
                        stage: TvdbStage::Authenticating { retried: true },
                        step: TvdbStepView::Authenticate,
                    }
                }
            } else {
                TvdbTransition {
                    token,
                    stage: TvdbStage::Finished,
                    step: TvdbStepView::Done(spec_query_outcome(query, exchange)),
                }
            }
        },
        _ => spec_out_of_turn(token),
    }
}

/// How many exchanges a call can still ask for.
pub open spec fn spec_exchanges_left(stage: TvdbStage) -> nat {
    match stage {
        TvdbStage::Authenticating { retried: false } => 4,
        TvdbStage::Requesting { retried: false } => 3,
        TvdbStage::Authenticating { retried: true } => 2,
        TvdbStage::Requesting { retried: true } => 1,
        TvdbStage::Finished => 0,
    }
}

/// The TVDB catalog: how to ask it and how to read its answers, with the
/// token that its session caches.
#[derive(Debug, Clone)]
pub struct TvdbClient {
    config: TvdbConfig,
    rate_limit: RateLimit,
    access_token: Option<String>,
}

impl TvdbClient {
    /// The cached token, where the session holds one.
    pub closed spec fn token(&self) -> Option<Seq<char>> {
        opt_view(self.access_token)
    }

    /// The credentials that the client was made with.
    pub closed spec fn spec_config(&self) -> TvdbConfig {
        self.config
    }

    /// The call budget that the client was made with.
    pub closed spec fn spec_rate_limit(&self) -> RateLimit {
        self.rate_limit
    }

    /// A client without a token.
    pub fn new(config: TvdbConfig, rate_limit: RateLimit) -> (client: TvdbClient)
        ensures
            client.spec_config() == config,
            client.spec_rate_limit() == rate_limit,
            client.token() is None,
    {
        TvdbClient { config, rate_limit, access_token: None }
    }

    /// The credentials.
    pub fn config(&self) -> (config: &TvdbConfig)
        ensures
            *config == self.spec_config(),
    {
        &self.config
    }

    /// The call budget.
    pub fn rate_limit(&self) -> (limit: RateLimit)
        ensures
            limit == self.spec_rate_limit(),
    {
        self.rate_limit
    }

    /// The provider's name.
    pub fn name(&self) -> (name: &'static str)
        ensures
            name@ == "TVDB"@,
    {
        "TVDB"
    }

    /// The cached token.
    pub fn access_token(&self) -> (token: &Option<String>)
        ensures
            opt_view(*token) == self.token(),
    {
        &self.access_token
    }

    /// The login request, from the API key as a JSON string literal. An
    /// error in place of the literal is passed on.
    pub fn login_request_from(literal: Result<String, AppError>) -> (request: Result<
        HttpRequest,
        AppError,
    >)
        ensures
            match literal {
                Ok(json) => request is Ok && request->Ok_0@ == (HttpRequestView {
                    method: HttpMethod::Post,
                    url: "https://api.thetvdb.com/login"@,
                    query: Seq::empty(),
                    headers: seq![("Content-Type"@, "application/json"@)],
                    body: Some("{\"apikey\":"@ + json@ + "}"@),
                }),
                Err(e) => request == Err::<HttpRequest, AppError>(e),
            },
    {
        match literal {
            Ok(json) => {
                let mut body = joined("{\"apikey\":", json.as_str());
                body.append("}");
                let mut headers: Vec<Param> = Vec::new();
                push_param(&mut headers, "Content-Type", "application/json".to_owned());
                let request = HttpRequest {
                    method: HttpMethod::Post,
                    url: "https://api.thetvdb.com/login".to_owned(),
                    query: Vec::new(),
                    headers,
                    body: Some(body),
                };
                assert(request@.query =~= Seq::empty());
                Ok(request)
            },
            Err(e) => Err(e),
        }
    }

    /// The request that exchanges the API key for a token: a POST to
    /// `login` whose body is the JSON object with the key as its one
    /// member. It can be built for every key.
    pub fn login_request(&self) -> (request: Result<HttpRequest, AppError>)
        ensures
            request is Ok,
            request->Ok_0@ == spec_login_request(self.spec_config()),
    {
        Self::login_request_from(string_literal(self.config.api_key.as_str()))
    }

    /// The request for a query, with `token` as bearer token.
    pub fn query_request(query: &TvdbQuery, token: &str) -> (request: HttpRequest)
        ensures
            request@ == spec_query_request(*query, token@),
    {
        let url = match query {
            TvdbQuery::Search { title } => joined(
                "https://api.thetvdb.com/search/series?name=",
                title.as_str(),
            ),
            TvdbQuery::Details { id } => joined("https://api.thetvdb.com/series/", id.as_str()),
        };
        let mut headers: Vec<Param> = Vec::new();
        push_param(&mut headers, "Authorization", bearer(token));
        let request = HttpRequest {
            method: HttpMethod::Get,
            url,
            query: Vec::new(),
            headers,
            body: None,
        };
        assert(request@.query =~= Seq::empty());
        request
    }

    /// Takes in how a login exchange ended. A token is cached; after a
    /// failure the session is as before.
    pub fn authenticate(&mut self, exchange: Exchange<TvdbAuthResponse>) -> (outcome: Result<
        (),
        AppError,
    >)
        ensures
            final(self).spec_config() == old(self).spec_config(),
            final(self).spec_rate_limit() == old(self).spec_rate_limit(),
            match spec_login_outcome(exchange) {
                Ok(fresh) => outcome is Ok && final(self).token() == Some(fresh),
                Err(e) => outcome is Err && outcome->Err_0@ == e && final(self).token() == old(
                    self,
                ).token(),
            },
    {
        match exchange {
            Exchange::Failed(reason) => Err(AppError::TransportError(reason)),
            Exchange::Replied { status, body } => {
                if crate::http::is_success(status) {
                    match body {
                        Some(auth) => {
                            self.access_token = Some(auth.token);
                            Ok(())
                        },
                        None => Err(
                            AppError::TransportError("malformed response body".to_owned()),
                        ),
                    }
                } else {
                    Err(AppError::AuthError("TVDB authentication failed".to_owned()))
                }
            },
        }
    }

    /// The records of a search answer, in order.
    pub fn search_results(answer: &TvdbSearchResponse) -> (results: Vec<MetadataResult>)
        ensures
            results_view(results@) == tvdb_results(answer.data@),
            forall|i: int| 0 <= i < results@.len() ==> results@[i].wf(),
    {
        let mut results: Vec<MetadataResult> = Vec::new();
        let mut i: usize = 0;
        while i < answer.data.len()
            invariant
                i <= answer.data.len(),
                results@.len() == i,
                forall|j: int| 0 <= j < i ==> results@[j]@ == tvdb_item_result(answer.data@[j]),
                forall|j: int| 0 <= j < i ==> results@[j].wf(),
            decreases answer.data.len() - i,
        {
            let item = &answer.data[i];
            results.push(convert(item.id, &item.series_name, &item.first_aired, &None));
            i += 1;
        }
        results
    }

    /// What a call yields once its query was answered, whatever the status.
    pub fn query_outcome(query: &TvdbQuery, exchange: Exchange<TvdbPayload>) -> (outcome: Result<
        TvdbAnswer,
        AppError,
    >)
        ensures
            match spec_query_outcome(*query, exchange) {
                Ok(answer) => outcome is Ok && outcome->Ok_0@ == answer,
                Err(e) => outcome is Err && outcome->Err_0@ == e,
            },
    {
        match settle(ServiceType::Tvdb, exchange) {
            Ok(payload) => match (query, payload) {
                (TvdbQuery::Search { .. }, TvdbPayload::Search(answer)) => Ok(
                    TvdbAnswer::Results(Self::search_results(&answer)),
                ),
                (TvdbQuery::Details { .. }, TvdbPayload::Details(answer)) => Ok(
                    TvdbAnswer::Details(MetadataResult::from(answer.data)),
                ),
                _ => Err(AppError::TransportError("malformed response body".to_owned())),
            },
            Err(e) => Err(e),
        }
    }

    /// Starts a call.
    pub fn begin(&self, query: TvdbQuery) -> (started: (TvdbCall, TvdbStep))
        ensures
            started.0.query == query,
            started.0.stage == spec_begin(self.token(), query).stage,
            started.1@ == spec_begin(self.token(), query).step,
    {
        match &self.access_token {
            Some(token) => {
                let request = Self::query_request(&query, token.as_str());
                (
                    TvdbCall { query, stage: TvdbStage::Requesting { retried: false } },
                    TvdbStep::Query(request),
                )
            },
            None => (
                TvdbCall { query, stage: TvdbStage::Authenticating { retried: false } },
                TvdbStep::Authenticate,
            ),
        }
    }

    /// Takes the call one step further with the reply to its last step.
    pub fn advance(&mut self, call: &mut TvdbCall, reply: TvdbReply) -> (step: TvdbStep)
        ensures
            final(self).spec_config() == old(self).spec_config(),
            final(self).spec_rate_limit() == old(self).spec_rate_limit(),
            final(call).query == old(call).query,
            final(self).token() == spec_advance(
                old(self).token(),
                old(call).query,
                old(call).stage,
                reply,
            ).token,
            final(call).stage == spec_advance(
                old(self).token(),
                old(call).query,
                old(call).stage,
                reply,
            ).stage,
            step@ == spec_advance(
                old(self).token(),
                old(call).query,
                old(call).stage,
                reply,
            ).step,
    {
        match (call.stage, reply) {
            (TvdbStage::Authenticating { retried }, TvdbReply::Login(exchange)) => {
                match self.authenticate(exchange) {
                    Ok(()) => {
                        match &self.access_token {
                            Some(token) => {
                                call.stage = TvdbStage::Requesting { retried };
                                TvdbStep::Query(Self::query_request(&call.query, token.as_str()))
                            },
                            None => vstd::pervasive::unreached(),
                        }
                    },
                    Err(e) => {
                        call.stage = TvdbStage::Finished;
                        TvdbStep::Done(Err(e))
                    },
                }
            },
            (TvdbStage::Requesting { retried }, TvdbReply::Query(exchange)) => {
                let refused = match &exchange {
                    Exchange::Replied { status, .. } => is_unauthorized(*status),
                    Exchange::Failed(_) => false,
                };
                if refused {
                    self.access_token = None;
                    if retried {
                        call.stage = TvdbStage::Finished;
                        TvdbStep::Done(
                            Err(
                                AppError::MetadataError {
                                    provider: ServiceType::Tvdb,
                                    status: UNAUTHORIZED,
                                },
                            ),
                        )
                    } else {
                        call.stage = TvdbStage::Authenticating { retried: true };
                        TvdbStep::Authenticate
                    }
                } else {
                    call.stage = TvdbStage::Finished;
                    TvdbStep::Done(Self::query_outcome(&call.query, exchange))
                }
            },
            _ => {
                call.stage = TvdbStage::Finished;
                TvdbStep::Done(Err(AppError::TransportError("reply out of turn".to_owned())))
            },
        }
    }
}

/// Every step of a call that does not end it leaves fewer exchanges to ask
/// for, and a call is over exactly when its step says so. A call therefore
/// asks for at most four exchanges, however TVDB answers.
pub proof fn lemma_call_terminates(
    token: Option<Seq<char>>,
    query: TvdbQuery,
    stage: TvdbStage,
    reply: TvdbReply,
)
    ensures
        spec_advance(token, query, stage, reply).step is Done <==> spec_advance(
            token,
            query,
            stage,
            reply,
        ).stage is Finished,
        !(stage is Finished) ==> spec_exchanges_left(
            spec_advance(token, query, stage, reply).stage,
        ) < spec_exchanges_left(stage),
        spec_exchanges_left(spec_begin(token, query).stage) <= 4,
{
}

/// A refusal of the token has the session discard it and authenticate
/// again, once: the query goes out a second time with the fresh token, and a
/// second refusal ends the call with a `MetadataError`.
pub proof fn lemma_one_retry_after_refusal(
    token: Option<Seq<char>>,
    query: TvdbQuery,
    first: Exchange<TvdbPayload>,
    login: Exchange<TvdbAuthResponse>,
    second: Exchange<TvdbPayload>,
)
    requires
        refuses_token(first),
    ensures
        ({
            let refused = spec_advance(
                token,
                query,
                TvdbStage::Requesting { retried: false },
                TvdbReply::Query(first),
            );
            let renewed = spec_advance(
                refused.token,
                query,
                refused.stage,
                TvdbReply::Login(login),
            );
            let retried = spec_advance(
                renewed.token,
                query,
                renewed.stage,
                TvdbReply::Query(second),
            );
            &&& refused.token is None
            &&& refused.step is Authenticate
            &&& spec_login_outcome(login) matches Ok(fresh) ==> {
                &&& renewed.token == Some(fresh)
                &&& renewed.step == TvdbStepView::Query(spec_query_request(query, fresh))
                &&& retried.stage is Finished
                &&& retried.step is Done
                &&& refuses_token(second) ==> retried.token is None && retried.step
                    == TvdbStepView::Done(
                    Err(
                        AppErrorView::Metadata {
                            provider: ServiceType::Tvdb,
                            status: UNAUTHORIZED,
                        },
                    ),
                )
                &&& !refuses_token(second) ==> retried.step == TvdbStepView::Done(
                    spec_query_outcome(query, second),
                )
            }
            &&& spec_login_outcome(login) matches Err(e) ==> {
                &&& renewed.stage is Finished
                &&& renewed.step == TvdbStepView::Done(Err(e))
            }
        }),
{
}

/// With a cached token no call authenticates before it has met a refusal.
pub proof fn lemma_cached_token_is_used(token: Seq<char>, query: TvdbQuery)
    ensures
        spec_begin(Some(token), query).step == TvdbStepView::Query(
            spec_query_request(query, token),
        ),
        spec_begin(Some(token), query).token == Some(token),
{
}

} // verus!
