use media_identity::config::TvdbConfig;
use media_identity::error::AppError;
use media_identity::http::{Exchange, HttpMethod, Param};
use media_identity::metadata::clients::tvdb::{
    TvdbAnswer, TvdbAuthResponse, TvdbCall, TvdbClient, TvdbDetailsItem, TvdbDetailsResponse,
    TvdbPayload, TvdbQuery, TvdbReply, TvdbSearchItem, TvdbSearchResponse, TvdbStage, TvdbStep,
};
use media_identity::metadata::{MediaType, MetadataResult, RateLimit, ServiceType};

fn param(name: &str, value: &str) -> Param {
    Param { name: name.to_string(), value: value.to_string() }
}

fn client() -> TvdbClient {
    let config = TvdbConfig { api_key: "test_api_key".to_string() };
    let rate_limit = RateLimit { calls: 10, per_seconds: 1 };
    TvdbClient::new(config, rate_limit)
}

fn search(title: &str) -> TvdbQuery {
    TvdbQuery::Search { title: title.to_string() }
}

fn token_reply(token: &str) -> TvdbReply {
    TvdbReply::Login(Exchange::Replied {
        status: 200,
        body: Some(TvdbAuthResponse { token: token.to_string() }),
    })
}

fn status_reply(status: u16) -> TvdbReply {
    TvdbReply::Query(Exchange::Replied { status, body: None })
}

fn search_reply(id: i32, name: &str) -> TvdbReply {
    TvdbReply::Query(Exchange::Replied {
        status: 200,
        body: Some(TvdbPayload::Search(TvdbSearchResponse {
            data: vec![TvdbSearchItem {
                id,
                series_name: name.to_string(),
                first_aired: None,
            }],
        })),
    })
}

#[test]
fn test_tvdb_search_item_conversion() {
    let item = TvdbSearchItem {
        id: 123,
        series_name: "Breaking Bad".to_string(),
        first_aired: Some("2008-01-20".to_string()),
    };

    let result: MetadataResult = item.into();

    assert_eq!(result.title, "Breaking Bad");
    assert_eq!(result.ids.tvdb, Some("123".to_string()));
    assert_eq!(result.year, Some("2008".to_string()));
    assert_eq!(result.media_type, MediaType::Series);
}

#[test]
fn test_tvdb_search_item_without_date() {
    let item = TvdbSearchItem {
        id: 456,
        series_name: "Unknown Show".to_string(),
        first_aired: None,
    };

    let result: MetadataResult = item.into();

    assert_eq!(result.title, "Unknown Show");
    assert_eq!(result.ids.tvdb, Some("456".to_string()));
    assert_eq!(result.year, None);
    assert_eq!(result.media_type, MediaType::Series);
}

#[test]
fn test_tvdb_details_conversion() {
    let details = TvdbDetailsItem {
        id: 123,
        series_name: "Breaking Bad".to_string(),
        first_aired: Some("2008-01-20".to_string()),
        imdb_id: Some("tt0903747".to_string()),
    };

    let result: MetadataResult = details.into();

    assert_eq!(result.title, "Breaking Bad");
    assert_eq!(result.ids.tvdb, Some("123".to_string()));
    assert_eq!(result.ids.imdb, Some("tt0903747".to_string()));
    assert_eq!(result.year, Some("2008".to_string()));
    assert_eq!(result.media_type, MediaType::Series);
}

#[test]
fn test_tvdb_details_without_imdb() {
    let details = TvdbDetailsItem {
        id: 789,
        series_name: "Another Show".to_string(),
        first_aired: Some("2015-05-10".to_string()),
        imdb_id: None,
    };

    let result: MetadataResult = details.into();

    assert_eq!(result.title, "Another Show");
    assert_eq!(result.ids.tvdb, Some("789".to_string()));
    assert_eq!(result.ids.imdb, None);
    assert_eq!(result.year, Some("2015".to_string()));
    assert_eq!(result.media_type, MediaType::Series);
}

#[test]
fn tvdb_test_client_creation() {
    let client = client();

    assert_eq!(client.name(), "TVDB");
    assert_eq!(client.config().api_key, "test_api_key");
    assert_eq!(client.rate_limit(), RateLimit { calls: 10, per_seconds: 1 });
    assert_eq!(client.access_token(), &None);
}

#[test]
fn tvdb_search_item_with_null_first_aired_has_no_year() {
    let item = TvdbSearchItem { id: 123, series_name: String::new(), first_aired: None };

    let result = MetadataResult::from(item);

    assert_eq!(result.year, None);
    assert_eq!(result.ids.tvdb, Some("123".to_string()));
    assert_eq!(result.ids.imdb, None);
    assert_eq!(result.ids.simkl, None);
    assert_eq!(result.ids.tmdb, None);
    assert_eq!(result.ids.mal, None);
}

#[test]
fn tvdb_login_request_carries_the_key_as_json() {
    let request = client().login_request().unwrap();

    assert_eq!(request.method, HttpMethod::Post);
    assert_eq!(request.url, "https://api.thetvdb.com/login");
    assert_eq!(request.headers, vec![param("Content-Type", "application/json")]);
    assert_eq!(request.body, Some("{\"apikey\":\"test_api_key\"}".to_string()));
    assert!(request.query.is_empty());
}

#[test]
fn tvdb_login_request_escapes_the_key() {
    let client = TvdbClient::new(
        TvdbConfig { api_key: "a\"b\\c\n".to_string() },
        RateLimit { calls: 1, per_seconds: 1 },
    );

    let request = client.login_request().unwrap();

    assert_eq!(request.body, Some("{\"apikey\":\"a\\\"b\\\\c\\n\"}".to_string()));
}

#[test]
fn tvdb_login_request_passes_an_encoding_failure_on() {
    let failure = AppError::TransportError("request body could not be encoded".to_string());
    assert_eq!(TvdbClient::login_request_from(Err(failure.clone())), Err(failure));
}

#[test]
fn tvdb_query_requests_carry_the_token() {
    let request = TvdbClient::query_request(&search("Breaking Bad"), "tok");
    assert_eq!(request.method, HttpMethod::Get);
    assert_eq!(request.url, "https://api.thetvdb.com/search/series?name=Breaking Bad");
    assert_eq!(request.headers, vec![param("Authorization", "Bearer tok")]);
    assert_eq!(request.body, None);

    let request = TvdbClient::query_request(&TvdbQuery::Details { id: "81189".to_string() }, "t");
    assert_eq!(request.url, "https://api.thetvdb.com/series/81189");
}

#[test]
fn tvdb_call_authenticates_first_when_no_token_is_cached() {
    let mut client = client();

    let (mut call, step) = client.begin(search("Dark"));
    assert_eq!(step, TvdbStep::Authenticate);
    assert_eq!(call.stage, TvdbStage::Authenticating { retried: false });

    let step = client.advance(&mut call, token_reply("fresh"));
    assert_eq!(step, TvdbStep::Query(TvdbClient::query_request(&search("Dark"), "fresh")));
    assert_eq!(call.stage, TvdbStage::Requesting { retried: false });
    assert_eq!(client.access_token(), &Some("fresh".to_string()));

    let step = client.advance(&mut call, search_reply(70327, "Dark"));
    assert_eq!(call.stage, TvdbStage::Finished);
    match step {
        TvdbStep::Done(Ok(TvdbAnswer::Results(results))) => {
            assert_eq!(results.len(), 1);
            assert_eq!(results[0].title, "Dark");
            assert_eq!(results[0].ids.tvdb, Some("70327".to_string()));
        }
        other => panic!("unexpected step: {:?}", other),
    }
}

#[test]
fn tvdb_call_uses_the_cached_token() {
    let mut client = client();
    client
        .authenticate(Exchange::Replied {
            status: 200,
            body: Some(TvdbAuthResponse { token: "cached".to_string() }),
        })
        .unwrap();

    let (call, step) = client.begin(search("Dark"));

    assert_eq!(step, TvdbStep::Query(TvdbClient::query_request(&search("Dark"), "cached")));
    assert_eq!(call.stage, TvdbStage::Requesting { retried: false });
}

#[test]
fn tvdb_unauthorized_triggers_one_reauthentication_and_one_retry() {
    let mut client = client();
    client
        .authenticate(Exchange::Replied {
            status: 200,
            body: Some(TvdbAuthResponse { token: "stale".to_string() }),
        })
        .unwrap();
    let (mut call, _) = client.begin(search("Dark"));

    let step = client.advance(&mut call, status_reply(401));
    assert_eq!(step, TvdbStep::Authenticate);
    assert_eq!(call.stage, TvdbStage::Authenticating { retried: true });
    assert_eq!(client.access_token(), &None);

    let step = client.advance(&mut call, token_reply("fresh"));
    assert_eq!(step, TvdbStep::Query(TvdbClient::query_request(&search("Dark"), "fresh")));
    assert_eq!(call.stage, TvdbStage::Requesting { retried: true });

    let step = client.advance(&mut call, search_reply(1, "Dark"));
    assert!(matches!(step, TvdbStep::Done(Ok(TvdbAnswer::Results(_)))));
    assert_eq!(client.access_token(), &Some("fresh".to_string()));
}

#[test]
fn tvdb_second_unauthorized_is_a_terminal_metadata_error() {
    let mut client = client();
    let (mut call, _) = client.begin(search("Dark"));
    client.advance(&mut call, token_reply("first"));

    assert_eq!(client.advance(&mut call, status_reply(401)), TvdbStep::Authenticate);
    client.advance(&mut call, token_reply("second"));
    let step = client.advance(&mut call, status_reply(401));

    assert_eq!(
        step,
        TvdbStep::Done(Err(AppError::MetadataError { provider: ServiceType::Tvdb, status: 401 }))
    );
    assert_eq!(call.stage, TvdbStage::Finished);
    assert_eq!(client.access_token(), &None);
}

#[test]
fn tvdb_failed_login_aborts_the_call_with_an_auth_error() {
    let mut client = client();
    let (mut call, _) = client.begin(search("Dark"));

    let step = client
        .advance(&mut call, TvdbReply::Login(Exchange::Replied { status: 403, body: None }));

    assert_eq!(
        step,
        TvdbStep::Done(Err(AppError::AuthError("TVDB authentication failed".to_string())))
    );
    assert_eq!(call.stage, TvdbStage::Finished);
    assert_eq!(client.access_token(), &None);
}

#[test]
fn tvdb_other_failures_end_the_call_without_retry() {
    let mut client = client();
    let (mut call, _) = client.begin(search("Dark"));
    client.advance(&mut call, token_reply("t"));

    let step = client.advance(&mut call, status_reply(503));

    assert_eq!(
        step,
        TvdbStep::Done(Err(AppError::MetadataError { provider: ServiceType::Tvdb, status: 503 }))
    );
    assert_eq!(client.access_token(), &Some("t".to_string()));

    let (mut call, _) = client.begin(search("Dark"));
    let step = client.advance(&mut call, TvdbReply::Query(Exchange::Failed("timeout".to_string())));
    assert_eq!(step, TvdbStep::Done(Err(AppError::TransportError("timeout".to_string()))));
}

#[test]
fn tvdb_reply_out_of_turn_ends_the_call() {
    let mut client = client();
    let (mut call, _) = client.begin(search("Dark"));

    let step = client.advance(&mut call, status_reply(200));
    assert_eq!(
        step,
        TvdbStep::Done(Err(AppError::TransportError("reply out of turn".to_string())))
    );

    let mut finished = TvdbCall { query: search("Dark"), stage: TvdbStage::Finished };
    let step = client.advance(&mut finished, token_reply("t"));
    assert_eq!(
        step,
        TvdbStep::Done(Err(AppError::TransportError("reply out of turn".to_string())))
    );
    assert_eq!(client.access_token(), &None);
}

#[test]
fn tvdb_details_call_yields_the_series() {
    let mut client = client();
    let (mut call, _) = client.begin(TvdbQuery::Details { id: "123".to_string() });
    client.advance(&mut call, token_reply("t"));

    let step = client.advance(
        &mut call,
        TvdbReply::Query(Exchange::Replied {
            status: 200,
            body: Some(TvdbPayload::Details(TvdbDetailsResponse {
                data: TvdbDetailsItem {
                    id: 123,
                    series_name: "Breaking Bad".to_string(),
                    first_aired: Some("2008-01-20".to_string()),
                    imdb_id: Some("tt0903747".to_string()),
                },
            })),
        }),
    );

    match step {
        TvdbStep::Done(Ok(TvdbAnswer::Details(result))) => {
            assert_eq!(result.title, "Breaking Bad");
            assert_eq!(result.year, Some("2008".to_string()));
            assert_eq!(result.ids.imdb, Some("tt0903747".to_string()));
        }
        other => panic!("unexpected step: {:?}", other),
    }

    let (mut call, _) = client.begin(TvdbQuery::Details { id: "123".to_string() });
    let step = client.advance(&mut call, search_reply(1, "wrong shape"));
    assert_eq!(
        step,
        TvdbStep::Done(Err(AppError::TransportError("malformed response body".to_string())))
    );
}

#[test]
fn tvdb_login_request_is_built_for_every_key() {
    for key in ["", "plain", "quote\"and\\slash", "line\nbreak", "\u{0}\u{1f}", "schlüssel-鍵"] {
        let client = TvdbClient::new(
            TvdbConfig { api_key: key.to_string() },
            RateLimit { calls: 1, per_seconds: 1 },
        );
        let request = client.login_request();
        assert!(request.is_ok(), "{:?}", key);
        let body = request.unwrap().body.unwrap();
        assert!(body.starts_with("{\"apikey\":\"") && body.ends_with("\"}"), "{}", body);
    }
}
