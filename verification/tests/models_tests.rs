use media_identity::error::AppError;
use media_identity::metadata::models::{clone_opt, normalize_id};
use media_identity::metadata::{IdKey, MediaIds, MediaType, MetadataResult, ServiceType};

fn some(text: &str) -> Option<String> {
    Some(text.to_string())
}

#[test]
fn default_ids_are_all_absent() {
    let ids = MediaIds::default();
    assert_eq!(ids.simkl, None);
    assert_eq!(ids.tvdb, None);
    assert_eq!(ids.tmdb, None);
    assert_eq!(ids.mal, None);
    assert_eq!(ids.imdb, None);
    assert!(ids.is_empty());
}

#[test]
fn merge_keeps_what_the_higher_provider_has_set() {
    let mut higher = MediaIds { simkl: some("1"), tmdb: some("2"), ..MediaIds::default() };
    let lower = MediaIds {
        simkl: some("other"),
        tvdb: some("3"),
        imdb: some("tt4"),
        ..MediaIds::default()
    };

    higher.merge(&lower);

    assert_eq!(higher.simkl, some("1"));
    assert_eq!(higher.tmdb, some("2"));
    assert_eq!(higher.tvdb, some("3"));
    assert_eq!(higher.imdb, some("tt4"));
    assert_eq!(higher.mal, None);
    assert!(!higher.is_empty());
}

#[test]
fn merge_is_idempotent() {
    let mut ids = MediaIds { tmdb: some("603"), ..MediaIds::default() };
    let lower = MediaIds { tmdb: some("999"), mal: some("5"), ..MediaIds::default() };

    ids.merge(&lower);
    let once = ids.duplicate();
    ids.merge(&lower);

    assert_eq!(ids, once);
    assert_eq!(ids.tmdb, some("603"));
    assert_eq!(ids.mal, some("5"));
}

#[test]
fn ids_are_read_by_key() {
    let ids = MediaIds {
        simkl: some("s"),
        tvdb: some("v"),
        tmdb: some("t"),
        mal: some("m"),
        imdb: some("i"),
    };
    assert_eq!(ids.get(IdKey::Simkl), &some("s"));
    assert_eq!(ids.get(IdKey::Tvdb), &some("v"));
    assert_eq!(ids.get(IdKey::Tmdb), &some("t"));
    assert_eq!(ids.get(IdKey::Mal), &some("m"));
    assert_eq!(ids.get(IdKey::Imdb), &some("i"));
}

#[test]
fn empty_identifier_counts_as_absent() {
    assert_eq!(normalize_id(some("")), None);
    assert_eq!(normalize_id(some("x")), some("x"));
    assert_eq!(normalize_id(None), None);
    assert_eq!(clone_opt(&some("x")), some("x"));
    assert_eq!(clone_opt(&None), None);
}

#[test]
fn result_duplicate_is_equal() {
    let result = MetadataResult {
        ids: MediaIds { tvdb: some("1"), ..MediaIds::default() },
        title: "Dark".to_string(),
        year: some("2017"),
        media_type: MediaType::Series,
    };
    assert_eq!(result.duplicate(), result);
}

#[test]
fn errors_know_whether_they_end_the_run() {
    assert!(!AppError::TransportError("t".to_string()).is_fatal());
    assert!(!AppError::MetadataError { provider: ServiceType::Mal, status: 500 }.is_fatal());
    assert!(AppError::AuthError("a".to_string()).is_fatal());
    assert!(AppError::BrowserError("b".to_string()).is_fatal());
    assert!(AppError::ConfigError("c".to_string()).is_fatal());

    let error = AppError::MetadataError { provider: ServiceType::Tvdb, status: 401 };
    assert_eq!(error.duplicate(), error);
    let error = AppError::AuthError("a".to_string());
    assert_eq!(error.duplicate(), error);
}

#[test]
fn errors_describe_themselves_by_category() {
    assert_eq!(
        AppError::TransportError("timed out".to_string()).describe(),
        "Transport error: timed out"
    );
    assert_eq!(
        AppError::MetadataError { provider: ServiceType::Simkl, status: 404 }.describe(),
        "Metadata error: Simkl API error: 404"
    );
    assert_eq!(
        AppError::MetadataError { provider: ServiceType::Tvdb, status: 401 }.describe(),
        "Metadata error: TVDB API error: 401"
    );
    assert_eq!(AppError::AuthError("no".to_string()).describe(), "Authentication error: no");
    assert_eq!(AppError::BrowserError("gone".to_string()).describe(), "Browser error: gone");
    assert_eq!(AppError::ConfigError("bad".to_string()).describe(), "Configuration error: bad");
}

#[test]
fn providers_have_names() {
    assert_eq!(ServiceType::Simkl.name(), "Simkl");
    assert_eq!(ServiceType::Tmdb.name(), "TMDB");
    assert_eq!(ServiceType::Tvdb.name(), "TVDB");
    assert_eq!(ServiceType::Mal.name(), "MyAnimeList");
}
