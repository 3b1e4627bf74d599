use media_identity::error::AppError;
use media_identity::metadata::engine::{
    normalize_ids, Findings, ProviderFlags, ProviderQuery, ResolutionEngine,
};
use media_identity::metadata::resolver::{ProviderReport, Providers};
use media_identity::metadata::{
    MediaIds, MediaType, MetadataProvider, MetadataResult, ServiceType,
};
use std::sync::Mutex;

fn some(text: &str) -> Option<String> {
    Some(text.to_string())
}

fn result(title: &str, year: Option<&str>, ids: MediaIds, media_type: MediaType) -> MetadataResult {
    MetadataResult { ids, title: title.to_string(), year: year.map(str::to_string), media_type }
}

fn engine(priority: &[ServiceType]) -> ResolutionEngine {
    ResolutionEngine::new(priority.to_vec(), ProviderFlags::all()).unwrap()
}

/// A provider that answers with what it was given and notes what it was
/// asked.
struct Scripted {
    first: Result<Vec<MetadataResult>, AppError>,
    later: Result<Vec<MetadataResult>, AppError>,
    asked: Mutex<Vec<(String, MediaType, Option<i32>)>>,
}

impl Scripted {
    fn answering(first: Vec<MetadataResult>) -> Scripted {
        Scripted { first: Ok(first.clone()), later: Ok(first), asked: Mutex::new(Vec::new()) }
    }

    fn then(first: Vec<MetadataResult>, later: Vec<MetadataResult>) -> Scripted {
        Scripted { first: Ok(first), later: Ok(later), asked: Mutex::new(Vec::new()) }
    }

    fn failing(error: AppError) -> Scripted {
        Scripted { first: Err(error.clone()), later: Err(error), asked: Mutex::new(Vec::new()) }
    }

    fn asked(&self) -> Vec<(String, MediaType, Option<i32>)> {
        self.asked.lock().unwrap().clone()
    }
}

impl MetadataProvider for Scripted {
    fn name(&self) -> &'static str {
        "scripted"
    }

    fn service(&self) -> ServiceType {
        ServiceType::Mal
    }

    fn search(
        &self,
        title: &str,
        media_type: MediaType,
        year: Option<i32>,
    ) -> Result<Vec<MetadataResult>, AppError> {
        let mut asked = self.asked.lock().unwrap();
        asked.push((title.to_string(), media_type, year));
        if asked.len() == 1 {
            self.first.clone()
        } else {
            self.later.clone()
        }
    }
}

fn none() -> Option<Scripted> {
    None
}

#[test]
fn engine_refuses_a_configuration_without_providers() {
    let made = ResolutionEngine::new(vec![ServiceType::Simkl], ProviderFlags::none());
    match made {
        Err(AppError::ConfigError(message)) => assert_eq!(message, "no provider is enabled"),
        other => panic!("unexpected: {:?}", other),
    }

    let made = ResolutionEngine::new(Vec::new(), ProviderFlags::all());
    assert!(matches!(made, Err(AppError::ConfigError(_))));
}

#[test]
fn engine_refuses_a_priority_order_that_repeats_a_provider() {
    let made = ResolutionEngine::new(
        vec![ServiceType::Tmdb, ServiceType::Simkl, ServiceType::Tmdb],
        ProviderFlags::all(),
    );
    match made {
        Err(AppError::ConfigError(message)) => {
            assert_eq!(message, "priority order names a provider twice")
        }
        other => panic!("unexpected: {:?}", other),
    }
}

#[test]
fn engine_plan_is_the_priority_order_without_disabled_providers() {
    let enabled = ProviderFlags::none().with(ServiceType::Tvdb).with(ServiceType::Simkl);
    assert!(enabled.has(ServiceType::Tvdb));
    assert!(!enabled.has(ServiceType::Mal));

    let engine = ResolutionEngine::new(
        vec![ServiceType::Mal, ServiceType::Tvdb, ServiceType::Tmdb, ServiceType::Simkl],
        enabled,
    )
    .unwrap();

    assert_eq!(engine.providers(), &vec![ServiceType::Tvdb, ServiceType::Simkl]);
}

#[test]
fn first_provider_in_priority_order_gives_the_canonical_record() {
    let simkl = result(
        "Inception (Simkl)",
        Some("2010"),
        MediaIds { simkl: some("s1"), ..MediaIds::default() },
        MediaType::Movie,
    );
    let tmdb = result(
        "Inception (TMDB)",
        Some("2011"),
        MediaIds { tmdb: some("t1"), ..MediaIds::default() },
        MediaType::Series,
    );

    for order in [[ServiceType::Simkl, ServiceType::Tmdb], [ServiceType::Tmdb, ServiceType::Simkl]]
    {
        let engine = engine(&order);
        let expected = if order[0] == ServiceType::Simkl { &simkl } else { &tmdb };

        let mut simkl_first = Findings::new();
        simkl_first.record_search(ServiceType::Simkl, &vec![simkl.clone()]);
        simkl_first.record_search(ServiceType::Tmdb, &vec![tmdb.clone()]);
        let mut tmdb_first = Findings::new();
        tmdb_first.record_search(ServiceType::Tmdb, &vec![tmdb.clone()]);
        tmdb_first.record_search(ServiceType::Simkl, &vec![simkl.clone()]);

        let one = engine.resolve("inception", MediaType::Movie, &simkl_first);
        let other = engine.resolve("inception", MediaType::Movie, &tmdb_first);

        assert_eq!(one, other);
        assert_eq!(one.title, expected.title);
        assert_eq!(one.year, expected.year);
        assert_eq!(one.media_type, expected.media_type);
        assert_eq!(one.ids.simkl, some("s1"));
        assert_eq!(one.ids.tmdb, some("t1"));
    }
}

#[test]
fn identifier_of_the_higher_provider_is_not_overwritten() {
    let simkl = result(
        "A",
        None,
        MediaIds { simkl: some("s"), tmdb: some("from simkl"), ..MediaIds::default() },
        MediaType::Movie,
    );
    let tmdb = result(
        "B",
        None,
        MediaIds { tmdb: some("from tmdb"), tvdb: some("v"), ..MediaIds::default() },
        MediaType::Movie,
    );
    let mut findings = Findings::new();
    findings.record_search(ServiceType::Tmdb, &vec![tmdb]);
    findings.record_search(ServiceType::Simkl, &vec![simkl]);

    let simkl_first = engine(&[ServiceType::Simkl, ServiceType::Tmdb]);
    let record = simkl_first.resolve("a", MediaType::Movie, &findings);
    assert_eq!(record.ids.tmdb, some("from simkl"));
    assert_eq!(record.ids.simkl, some("s"));
    assert_eq!(record.ids.tvdb, some("v"));

    let tmdb_first = engine(&[ServiceType::Tmdb, ServiceType::Simkl]);
    let record = tmdb_first.resolve("a", MediaType::Movie, &findings);
    assert_eq!(record.ids.tmdb, some("from tmdb"));
    assert_eq!(record.ids.simkl, some("s"));

    let again = tmdb_first.resolve("a", MediaType::Movie, &findings);
    assert_eq!(again, record);
}

#[test]
fn title_without_metadata_keeps_what_was_scraped() {
    let engine = engine(&[ServiceType::Simkl, ServiceType::Tmdb]);
    let mut findings = Findings::new();
    findings.record_search(ServiceType::Simkl, &Vec::new());

    let record = engine.resolve("Obscure Title", MediaType::Series, &findings);

    assert_eq!(record.title, "Obscure Title");
    assert_eq!(record.year, None);
    assert_eq!(record.media_type, MediaType::Series);
    assert!(record.ids.is_empty());
    assert!(!engine.has_canonical(&findings));
}

#[test]
fn provider_outside_the_plan_contributes_nothing() {
    let engine = engine(&[ServiceType::Tmdb]);
    let mut findings = Findings::new();
    findings.record_search(
        ServiceType::Mal,
        &vec![result("Anime", None, MediaIds { mal: some("1"), ..MediaIds::default() }, MediaType::Series)],
    );

    let record = engine.resolve("x", MediaType::Movie, &findings);

    assert_eq!(record.title, "x");
    assert!(record.ids.is_empty());
}

#[test]
fn lookup_fills_identifiers_but_never_the_canonical_record() {
    let engine = engine(&[ServiceType::Simkl, ServiceType::Tmdb]);
    let mut findings = Findings::new();
    assert!(findings.lacks_ids(ServiceType::Simkl));
    findings.record_lookup(
        ServiceType::Simkl,
        &vec![result("Wrong", Some("1900"), MediaIds { simkl: some("s"), ..MediaIds::default() }, MediaType::Series)],
    );
    assert!(!findings.lacks_ids(ServiceType::Simkl));
    assert!(!findings.has_candidate(ServiceType::Simkl));

    let record = engine.resolve("Scraped", MediaType::Movie, &findings);
    assert_eq!(record.title, "Scraped");
    assert_eq!(record.year, None);
    assert_eq!(record.media_type, MediaType::Movie);
    assert_eq!(record.ids.simkl, some("s"));

    findings.record_lookup(
        ServiceType::Simkl,
        &vec![result("Again", None, MediaIds { simkl: some("other"), ..MediaIds::default() }, MediaType::Movie)],
    );
    let record = engine.resolve("Scraped", MediaType::Movie, &findings);
    assert_eq!(record.ids.simkl, some("s"));
}

#[test]
fn findings_take_empty_identifiers_for_absent() {
    let ids = MediaIds { simkl: some(""), tmdb: some("7"), ..MediaIds::default() };
    assert_eq!(normalize_ids(&ids), MediaIds { tmdb: some("7"), ..MediaIds::default() });

    let engine = engine(&[ServiceType::Simkl, ServiceType::Tmdb]);
    let mut findings = Findings::new();
    findings.record_search(ServiceType::Simkl, &vec![result("A", None, ids, MediaType::Movie)]);
    findings.record_search(
        ServiceType::Tmdb,
        &vec![result("B", None, MediaIds { simkl: some("s"), ..MediaIds::default() }, MediaType::Movie)],
    );

    let record = engine.resolve("a", MediaType::Movie, &findings);
    assert_eq!(record.ids.simkl, some("s"));
    assert_eq!(record.ids.tmdb, some("7"));
}

#[test]
fn resolving_with_simkl_empty_and_tmdb_found_takes_tmdb_and_merges_simkl_later() {
    let tmdb_hit = result(
        "Inception",
        Some("2010"),
        MediaIds { tmdb: some("27205"), ..MediaIds::default() },
        MediaType::Movie,
    );
    let simkl_hit = result(
        "Inception",
        Some("2010"),
        MediaIds { simkl: some("472214"), ..MediaIds::default() },
        MediaType::Movie,
    );
    let providers = Providers {
        simkl: Some(Scripted::then(Vec::new(), vec![simkl_hit])),
        tmdb: Some(Scripted::answering(vec![tmdb_hit])),
        tvdb: none(),
        mal: none(),
    };
    let engine = engine(&[ServiceType::Simkl, ServiceType::Tmdb]);

    let resolution = engine.resolve_with(&providers, "inception 2010", MediaType::Movie, Some(2010));

    assert_eq!(resolution.record.title, "Inception");
    assert_eq!(resolution.record.year, some("2010"));
    assert_eq!(resolution.record.media_type, MediaType::Movie);
    assert_eq!(resolution.record.ids.tmdb, some("27205"));
    assert_eq!(resolution.record.ids.simkl, some("472214"));
    assert_eq!(resolution.reports.len(), 3);
    assert!(resolution.reports.iter().all(|report| report.answer.is_ok()));
    assert_eq!(
        resolution.reports.iter().map(|report| (report.query.service, report.lookup)).collect::<Vec<_>>(),
        vec![
            (ServiceType::Simkl, false),
            (ServiceType::Tmdb, false),
            (ServiceType::Simkl, true),
        ]
    );

    let simkl = providers.simkl.as_ref().unwrap();
    assert_eq!(
        simkl.asked(),
        vec![
            ("inception 2010".to_string(), MediaType::Movie, Some(2010)),
            ("Inception".to_string(), MediaType::Movie, None),
        ]
    );
    let tmdb = providers.tmdb.as_ref().unwrap();
    assert_eq!(tmdb.asked(), vec![("inception 2010".to_string(), MediaType::Movie, Some(2010))]);
}

#[test]
fn failing_provider_is_noted_and_passed_over() {
    let hit = result(
        "Dark",
        Some("2017"),
        MediaIds { tvdb: some("334824"), ..MediaIds::default() },
        MediaType::Series,
    );
    let failure = AppError::MetadataError { provider: ServiceType::Simkl, status: 500 };
    let providers = Providers {
        simkl: Some(Scripted::failing(failure.clone())),
        tmdb: none(),
        tvdb: Some(Scripted::answering(vec![hit.clone()])),
        mal: none(),
    };
    let engine = engine(&[ServiceType::Simkl, ServiceType::Tmdb, ServiceType::Tvdb]);

    let resolution = engine.resolve_with(&providers, "dark", MediaType::Series, None);

    assert_eq!(resolution.record.title, "Dark");
    assert_eq!(resolution.record.ids.tvdb, some("334824"));
    assert_eq!(resolution.record.ids.simkl, None);
    assert_eq!(
        resolution.reports,
        vec![
            ProviderReport {
                query: query(ServiceType::Simkl, "dark", MediaType::Series, None),
                lookup: false,
                answer: Err(failure.clone()),
            },
            ProviderReport {
                query: query(ServiceType::Tvdb, "dark", MediaType::Series, None),
                lookup: false,
                answer: Ok(vec![hit.clone()]),
            },
            ProviderReport {
                query: query(ServiceType::Simkl, "Dark", MediaType::Series, None),
                lookup: true,
                answer: Err(failure),
            },
        ]
    );
    assert!(resolution.findings.lacks_ids(ServiceType::Simkl));
    assert!(resolution.findings.has_candidate(ServiceType::Tvdb));
}

#[test]
fn resolving_without_any_answer_is_no_error() {
    let providers = Providers {
        simkl: Some(Scripted::answering(Vec::new())),
        tmdb: Some(Scripted::failing(AppError::TransportError("timeout".to_string()))),
        tvdb: none(),
        mal: none(),
    };
    assert!(providers.configured().has(ServiceType::Simkl));
    assert!(!providers.configured().has(ServiceType::Tvdb));
    let engine = engine(&[ServiceType::Tmdb, ServiceType::Simkl, ServiceType::Mal]);

    let resolution = engine.resolve_with(&providers, "Nothing", MediaType::Movie, None);

    assert_eq!(resolution.record.title, "Nothing");
    assert_eq!(resolution.record.year, None);
    assert_eq!(resolution.record.media_type, MediaType::Movie);
    assert!(resolution.record.ids.is_empty());
    assert_eq!(resolution.reports.len(), 2);
    assert_eq!(resolution.reports[0].query.service, ServiceType::Tmdb);
    assert_eq!(
        resolution.reports[0].answer,
        Err(AppError::TransportError("timeout".to_string()))
    );
    assert_eq!(resolution.reports[1].answer, Ok(Vec::new()));
    assert_eq!(providers.simkl.as_ref().unwrap().asked().len(), 1);
    let query = ProviderQuery {
        service: ServiceType::Mal,
        title: "x".to_string(),
        media_type: MediaType::Movie,
        year: None,
    };
    assert_eq!(providers.ask(&query), None);
}

fn query(service: ServiceType, title: &str, media_type: MediaType, year: Option<i32>) -> ProviderQuery {
    ProviderQuery { service, title: title.to_string(), media_type, year }
}

#[test]
fn searches_go_to_each_configured_provider_of_the_plan_in_order() {
    let engine = engine(&[ServiceType::Tvdb, ServiceType::Mal, ServiceType::Simkl]);
    let configured = ProviderFlags::none().with(ServiceType::Simkl).with(ServiceType::Tvdb).with(ServiceType::Tmdb);

    let queries = engine.search_queries(configured, "Dark", MediaType::Series, Some(2017));

    assert_eq!(
        queries,
        vec![
            query(ServiceType::Tvdb, "Dark", MediaType::Series, Some(2017)),
            query(ServiceType::Simkl, "Dark", MediaType::Series, Some(2017)),
        ]
    );
    assert!(engine.search_queries(ProviderFlags::none(), "Dark", MediaType::Series, None).is_empty());
}

#[test]
fn lookups_ask_for_the_canonical_title_where_identifiers_are_missing() {
    let engine = engine(&[ServiceType::Simkl, ServiceType::Tmdb, ServiceType::Tvdb]);
    let mut findings = Findings::new();
    assert!(engine.lookup_queries(ProviderFlags::all(), &findings).is_empty());

    findings.record_search(
        ServiceType::Tmdb,
        &vec![result("Dark", Some("2017"), MediaIds { tmdb: some("70523"), ..MediaIds::default() }, MediaType::Series)],
    );

    assert_eq!(
        engine.lookup_queries(ProviderFlags::all(), &findings),
        vec![
            query(ServiceType::Simkl, "Dark", MediaType::Series, None),
            query(ServiceType::Tvdb, "Dark", MediaType::Series, None),
        ]
    );
    assert_eq!(
        engine.lookup_queries(ProviderFlags::none().with(ServiceType::Tvdb), &findings),
        vec![query(ServiceType::Tvdb, "Dark", MediaType::Series, None)]
    );
    assert_eq!(engine.canonical(&findings).map(|c| c.title), some("Dark"));
    assert_eq!(engine.merged_ids(&findings).tmdb, some("70523"));
}

#[test]
fn provider_without_details_fails_with_not_implemented() {
    let provider = Scripted::answering(Vec::new());

    assert_eq!(
        provider.get_details("123", MediaType::Movie),
        Err(AppError::MetadataError { provider: ServiceType::Mal, status: 501 })
    );
    assert_eq!(media_identity::http::NOT_IMPLEMENTED, 501);
    assert_eq!(provider.name(), "scripted");
}
