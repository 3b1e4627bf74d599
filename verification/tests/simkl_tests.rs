use media_identity::config::SimklConfig;
use media_identity::error::AppError;
use media_identity::http::{Exchange, HttpMethod, Param};
use media_identity::metadata::clients::simkl::{
    SimklClient, SimklDetailsResponse, SimklIds, SimklSearchItem,
};
use media_identity::metadata::{MediaType, MetadataResult, ServiceType};

fn param(name: &str, value: &str) -> Param {
    Param { name: name.to_string(), value: value.to_string() }
}

fn client() -> SimklClient {
    SimklClient::new(SimklConfig {
        client_id: "test_client".to_string(),
        client_secret: "test_secret".to_string(),
    })
}

#[test]
fn test_simkl_search_item_conversion() {
    let item = SimklSearchItem {
        title: "Inception".to_string(),
        year: Some("2010".to_string()),
        ids: SimklIds {
            simkl: "123".to_string(),
            imdb: Some("tt1375666".to_string()),
            tmdb: Some("12345".to_string()),
            tvdb: None,
        },
    };

    let result: MetadataResult = item.into();

    assert_eq!(result.title, "Inception");
    assert_eq!(result.year, Some("2010".to_string()));
    assert_eq!(result.ids.simkl, Some("123".to_string()));
    assert_eq!(result.ids.imdb, Some("tt1375666".to_string()));
    assert_eq!(result.ids.tmdb, Some("12345".to_string()));
    assert_eq!(result.ids.tvdb, None);
    assert_eq!(result.media_type, MediaType::Movie);
}

#[test]
fn test_simkl_details_conversion() {
    let details = SimklDetailsResponse {
        title: "Breaking Bad".to_string(),
        year: Some("2008".to_string()),
        ids: SimklIds {
            simkl: "456".to_string(),
            imdb: Some("tt0903747".to_string()),
            tmdb: Some("12345".to_string()),
            tvdb: Some("789".to_string()),
        },
    };

    let result: MetadataResult = details.into();

    assert_eq!(result.title, "Breaking Bad");
    assert_eq!(result.year, Some("2008".to_string()));
    assert_eq!(result.ids.simkl, Some("456".to_string()));
    assert_eq!(result.ids.imdb, Some("tt0903747".to_string()));
    assert_eq!(result.ids.tmdb, Some("12345".to_string()));
    assert_eq!(result.ids.tvdb, Some("789".to_string()));
    assert_eq!(result.media_type, MediaType::Movie);
}

#[test]
fn test_simkl_item_with_missing_fields() {
    let item = SimklSearchItem {
        title: "Unknown Show".to_string(),
        year: None,
        ids: SimklIds { simkl: "999".to_string(), imdb: None, tmdb: None, tvdb: None },
    };

    let result: MetadataResult = item.into();

    assert_eq!(result.title, "Unknown Show");
    assert_eq!(result.year, None);
    assert_eq!(result.ids.simkl, Some("999".to_string()));
    assert_eq!(result.ids.imdb, None);
    assert_eq!(result.ids.tmdb, None);
    assert_eq!(result.ids.tvdb, None);
    assert_eq!(result.media_type, MediaType::Movie);
}

#[test]
fn simkl_test_client_creation() {
    let client = client();

    assert_eq!(client.name(), "Simkl");
    assert_eq!(client.config.client_id, "test_client");
    assert_eq!(client.config.client_secret, "test_secret");
}

#[test]
fn simkl_empty_identifiers_count_as_absent() {
    let item = SimklSearchItem {
        title: "Blank".to_string(),
        year: None,
        ids: SimklIds {
            simkl: "".to_string(),
            imdb: Some("".to_string()),
            tmdb: Some("7".to_string()),
            tvdb: Some("".to_string()),
        },
    };

    let result = MetadataResult::from(item);

    assert_eq!(result.ids.simkl, None);
    assert_eq!(result.ids.imdb, None);
    assert_eq!(result.ids.tmdb, Some("7".to_string()));
    assert_eq!(result.ids.tvdb, None);
    assert_eq!(result.ids.mal, None);
}

#[test]
fn simkl_search_request_is_built_as_the_service_expects() {
    let request = client().search_request("Inception", MediaType::Movie, Some(2010));

    assert_eq!(request.method, HttpMethod::Get);
    assert_eq!(request.url, "https://api.simkl.com/search");
    assert_eq!(
        request.query,
        vec![param("q", "Inception"), param("type", "movie"), param("year", "2010")]
    );
    assert_eq!(
        request.headers,
        vec![param("Authorization", "Bearer test_secret"), param("simkl-api-key", "test_client")]
    );
    assert_eq!(request.body, None);
}

#[test]
fn simkl_search_request_without_year_has_no_year_parameter() {
    let request = client().search_request("Dark", MediaType::Series, None);

    assert_eq!(request.query, vec![param("q", "Dark"), param("type", "show")]);
}

#[test]
fn simkl_details_request_names_kind_and_identifier() {
    let movie = client().details_request("123", MediaType::Movie);
    let show = client().details_request("456", MediaType::Series);

    assert_eq!(movie.url, "https://api.simkl.com/movies/123?extended=full");
    assert_eq!(show.url, "https://api.simkl.com/shows/456?extended=full");
    assert!(movie.query.is_empty());
    assert_eq!(movie.headers.len(), 2);
}

#[test]
fn simkl_search_results_follow_the_exchange() {
    let item = SimklSearchItem {
        title: "Inception".to_string(),
        year: Some("2010".to_string()),
        ids: SimklIds { simkl: "123".to_string(), imdb: None, tmdb: None, tvdb: None },
    };
    let ok = SimklClient::search_results(Exchange::Replied { status: 200, body: Some(vec![item]) });
    let results = ok.unwrap();
    assert_eq!(results.len(), 1);
    assert_eq!(results[0].title, "Inception");
    assert_eq!(results[0].ids.simkl, Some("123".to_string()));

    let refused =
        SimklClient::search_results(Exchange::Replied { status: 404, body: Some(Vec::new()) });
    assert_eq!(
        refused,
        Err(AppError::MetadataError { provider: ServiceType::Simkl, status: 404 })
    );

    let malformed = SimklClient::search_results(Exchange::Replied { status: 200, body: None });
    assert_eq!(malformed, Err(AppError::TransportError("malformed response body".to_string())));

    let failed = SimklClient::search_results(Exchange::Failed("timed out".to_string()));
    assert_eq!(failed, Err(AppError::TransportError("timed out".to_string())));
}

#[test]
fn simkl_details_result_follows_the_exchange() {
    let details = SimklDetailsResponse {
        title: "Breaking Bad".to_string(),
        year: None,
        ids: SimklIds { simkl: "456".to_string(), imdb: None, tmdb: None, tvdb: None },
    };
    let ok = SimklClient::details_result(Exchange::Replied { status: 299, body: Some(details) });
    let result = ok.unwrap();
    assert_eq!(result.title, "Breaking Bad");
    assert_eq!(result.year, None);

    let refused = SimklClient::details_result(Exchange::Replied { status: 300, body: None });
    assert_eq!(
        refused,
        Err(AppError::MetadataError { provider: ServiceType::Simkl, status: 300 })
    );
}
