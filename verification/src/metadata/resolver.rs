//! Resolution with providers at hand: puts the engine's queries to them and
//! keeps a report of every exchange.

use vstd::prelude::*;
use crate::error::{AppError, AppErrorView};
use crate::metadata::engine::{
    Findings, FindingsView, ProviderFlags, ProviderQuery, ProviderQueryView, ResolutionEngine,
    is_enabled, lemma_no_candidate, lemma_nothing_found, queries_view, spec_lookup_queries,
    spec_queries,
};
use crate::metadata::models::{
    MediaIdsView, MediaType, MetadataResult, MetadataResultView, ServiceType,
};
use crate::metadata::provider::{MetadataProvider, results_view};

verus! {

/// The providers that a run can ask, each under its service. One that is
/// not configured is `None`.
pub struct Providers<S, T, V, M> {
    pub simkl: Option<S>,
    pub tmdb: Option<T>,
    pub tvdb: Option<V>,
    pub mal: Option<M>,
}

impl<S: MetadataProvider, T: MetadataProvider, V: MetadataProvider, M: MetadataProvider> Providers<
    S,
    T,
    V,
    M,
> {
    /// Which providers are configured.
    pub open spec fn spec_configured(&self) -> ProviderFlags {
        ProviderFlags {
            simkl: self.simkl is Some,
            tmdb: self.tmdb is Some,
            tvdb: self.tvdb is Some,
            mal: self.mal is Some,
        }
    }

    /// Which providers are configured.
    pub fn configured(&self) -> (flags: ProviderFlags)
        ensures
            flags == self.spec_configured(),
    {
        ProviderFlags {
            simkl: self.simkl.is_some(),
            tmdb: self.tmdb.is_some(),
            tvdb: self.tvdb.is_some(),
            mal: self.mal.is_some(),
        }
    }

    /// Puts a query to its provider. `None` where that one is not
    /// configured; of what a provider answers nothing is known.
    pub fn ask(&self, query: &ProviderQuery) -> (answer: Option<
        Result<Vec<MetadataResult>, AppError>,
    >)
        ensures
            answer is Some <==> self.spec_configured().spec_has(query.service),
    {
        let title = query.title.as_str();
        match query.service {
            ServiceType::Simkl => match &self.simkl {
                Some(provider) => Some(provider.search(title, query.media_type, query.year)),
                None => None,
            },
            ServiceType::Tmdb => match &self.tmdb {
                Some(provider) => Some(provider.search(title, query.media_type, query.year)),
                None => None,
            },
            ServiceType::Tvdb => match &self.tvdb {
                Some(provider) => Some(provider.search(title, query.media_type, query.year)),
                None => None,
            },
            ServiceType::Mal => match &self.mal {
                Some(provider) => Some(provider.search(title, query.media_type, query.year)),
                None => None,
            },
        }
    }
}

/// One question that was put to a provider, and what came back.
#[derive(Debug, PartialEq, Eq)]
pub struct ProviderReport {
    pub query: ProviderQuery,
    /// Whether the question was a lookup for identifiers rather than a
    /// search for the title.
    pub lookup: bool,
    pub answer: Result<Vec<MetadataResult>, AppError>,
}

/// The mathematical value of a [`ProviderReport`].
pub struct ProviderReportView {
    pub query: ProviderQueryView,
    pub lookup: bool,
    pub answer: Result<Seq<MetadataResultView>, AppErrorView>,
}

impl View for ProviderReport {
    type V = ProviderReportView;

    open spec fn view(&self) -> ProviderReportView {
        ProviderReportView {
            query: self.query@,
            lookup: self.lookup,
            answer: match self.answer {
                Ok(results) => Ok(results_view(results@)),
                Err(e) => Err(e@),
            },
        }
    }
}

/// The views of a list of reports, in order.
pub open spec fn reports_view(reports: Seq<ProviderReport>) -> Seq<ProviderReportView> {
    Seq::new(reports.len(), |i: int| reports[i]@)
}

/// The questions of a list of reports, in order.
pub open spec fn asked(reports: Seq<ProviderReportView>) -> Seq<ProviderQueryView> {
    Seq::new(reports.len(), |i: int| reports[i].query)
}

/// The findings after one report was taken in: the results of a search or
/// of a lookup are held as such; a failure leaves the findings as they were.
pub open spec fn take_in(findings: FindingsView, report: ProviderReportView) -> FindingsView {
    match report.answer {
        Ok(results) => if report.lookup {
            findings.with_lookup(report.query.service, results)
        } else {
            findings.with_search(report.query.service, results)
        },
        Err(_) => findings,
    }
}

/// The findings after a list of reports was taken in, in order.
pub open spec fn replay(start: FindingsView, reports: Seq<ProviderReportView>) -> FindingsView
    decreases reports.len(),
{
    if reports.len() == 0 {
        start
    } else {
        take_in(replay(start, reports.drop_last()), reports.last())
    }
}

/// What the resolution of one title has yielded.
pub struct Resolution {
    /// The identity record.
    pub record: MetadataResult,
    /// What the providers contributed to it.
    pub findings: Findings,
    /// Every question that was put to a provider, in order, with what came
    /// back. A failure is reported here and did not stop the resolution.
    pub reports: Vec<ProviderReport>,
}

/// The course of a resolution, given what was asked and answered: first
/// the searches for the scraped title went out, one to each configured
/// provider of the plan in its order, then the lookups that were due for
/// what the searches gave, and the findings are what all the answers give.
pub open spec fn resolution_course(
    plan: Seq<ServiceType>,
    configured: ProviderFlags,
    title: Seq<char>,
    media_type: MediaType,
    year: Option<i32>,
    reports: Seq<ProviderReportView>,
    findings: FindingsView,
) -> bool {
    let searches = spec_queries(plan.filter(is_enabled(configured)), title, media_type, year);
    let searched = replay(FindingsView::empty(), reports.take(searches.len() as int));
    &&& searches.len() <= reports.len()
    &&& asked(reports.take(searches.len() as int)) == searches
    &&& forall|i: int| 0 <= i < searches.len() ==> !(#[trigger] reports[i]).lookup
    &&& asked(reports.skip(searches.len() as int)) == spec_lookup_queries(
        plan,
        configured,
        searched,
    )
    &&& forall|i: int| searches.len() <= i < reports.len() ==> (#[trigger] reports[i]).lookup
    &&& findings == replay(FindingsView::empty(), reports)
}

/// Puts each query to its provider and takes in what comes back.
fn put_queries<S: MetadataProvider, T: MetadataProvider, V: MetadataProvider, M: MetadataProvider>(
    providers: &Providers<S, T, V, M>,
    queries: &Vec<ProviderQuery>,
    lookup: bool,
    findings: &mut Findings,
    reports: &mut Vec<ProviderReport>,
)
    requires
        forall|k: int|
            0 <= k < queries@.len() ==> providers.spec_configured().spec_has(
                (#[trigger] queries@[k]).service,
            ),
    ensures
        final(reports)@.len() == old(reports)@.len() + queries@.len(),
        reports_view(final(reports)@).take(old(reports)@.len() as int) == reports_view(
            old(reports)@,
        ),
        asked(reports_view(final(reports)@).skip(old(reports)@.len() as int)) == queries_view(
            queries@,
        ),
        forall|i: int|
            old(reports)@.len() <= i < final(reports)@.len() ==> (#[trigger] final(reports)@[i]).lookup
                == lookup,
        final(findings)@ == replay(
            old(findings)@,
            reports_view(final(reports)@).skip(old(reports)@.len() as int),
        ),
{
    let ghost first = reports@.len() as int;
    let mut i: usize = 0;
    while i < queries.len()
        invariant
            i <= queries.len(),
            forall|k: int|
                0 <= k < queries@.len() ==> providers.spec_configured().spec_has(
                    (#[trigger] queries@[k]).service,
                ),
            reports@.len() == first + i,
            first == old(reports)@.len(),
            reports_view(reports@).take(first) == reports_view(old(reports)@),
            asked(reports_view(reports@).skip(first)) == queries_view(queries@.take(i as int)),
            forall|k: int| first <= k < reports@.len() ==> (#[trigger] reports@[k]).lookup == lookup,
            findings@ == replay(old(findings)@, reports_view(reports@).skip(first)),
        decreases queries.len() - i,
    {
        let ghost before = reports@;
        let query = queries[i].duplicate();
        let service = query.service;
        let answer = match providers.ask(&query) {
            Some(answer) => answer,
            None => vstd::pervasive::unreached(),
        };
        if let Ok(results) = &answer {
            if lookup {
                findings.record_lookup(service, results);
            } else {
                findings.record_search(service, results);
            }
        }
        let report = ProviderReport { query, lookup, answer };
        reports.push(report);
        proof {
            let now = reports_view(reports@).skip(first);
            let then = reports_view(before).skip(first);
            assert(now.drop_last() =~= then);
            assert(asked(now) =~= queries_view(queries@.take(i + 1))) by {
                assert forall|k: int| 0 <= k < now.len() implies asked(now)[k] == queries_view(
                    queries@.take(i + 1),
                )[k] by {
                    if k < i {
                        assert(asked(then)[k] == queries_view(queries@.take(i as int))[k]);
                    }
                }
            }
        }
        i += 1;
    }
}

impl ResolutionEngine {
    /// Resolves one title with the providers at hand.
    ///
    /// The searches of `search_queries` are put to the providers, then the
    /// lookups of `lookup_queries` for what the searches gave. A provider
    /// that fails is reported and passed over. The record is the one that
    /// `resolve` gives for what was gathered. Of what a provider answers
    /// nothing is known; the reports say what each one was asked and what it
    /// answered.
    pub fn resolve_with<
        S: MetadataProvider,
        T: MetadataProvider,
        V: MetadataProvider,
        M: MetadataProvider,
    >(
        &self,
        providers: &Providers<S, T, V, M>,
        title: &str,
        media_type: MediaType,
        year: Option<i32>,
    ) -> (resolution: Resolution)
        ensures
            resolution.record@ == resolution.findings@.resolve(self.plan(), title@, media_type),
            resolution.record.wf(),
            resolution_course(
                self.plan(),
                providers.spec_configured(),
                title@,
                media_type,
                year,
                reports_view(resolution.reports@),
                resolution.findings@,
            ),
    {
        let configured = providers.configured();
        let mut findings = Findings::new();
        let mut reports: Vec<ProviderReport> = Vec::new();

        let searches = self.search_queries(configured, title, media_type, year);
        let ghost searches_view = queries_view(searches@);
        put_queries(providers, &searches, false, &mut findings, &mut reports);
        let ghost first_reports = reports@;
        let ghost searched = reports_view(reports@);
        proof {
            assert(searched.skip(0) =~= searched);
        }

        let lookups = self.lookup_queries(configured, &findings);
        put_queries(providers, &lookups, true, &mut findings, &mut reports);

        let record = self.resolve(title, media_type, &findings);
        proof {
            let all = reports_view(reports@);
            let n = searches_view.len() as int;
            assert forall|i: int| 0 <= i < n implies !(#[trigger] all[i]).lookup by {
                assert(searched[i] == first_reports[i]@);
            }
            lemma_replay_in_two(FindingsView::empty(), all, n);
        }
        Resolution { record, findings, reports }
    }
}

/// Taking reports in all at once gives what taking in the first of them and
/// then the others gives.
pub proof fn lemma_replay_in_two(start: FindingsView, reports: Seq<ProviderReportView>, at: int)
    requires
        0 <= at <= reports.len(),
    ensures
        replay(start, reports) == replay(replay(start, reports.take(at)), reports.skip(at)),
    decreases reports.len(),
{
    if at == reports.len() {
        assert(reports.take(at) =~= reports);
    } else {
        let most = reports.drop_last();
        let rest = reports.skip(at);
        lemma_replay_in_two(start, most, at);
        assert(most.take(at) =~= reports.take(at));
        assert(rest.drop_last() =~= most.skip(at));
    }
}

/// A provider that was never asked contributes nothing: after any reports,
/// the findings hold from it what they held before.
pub proof fn lemma_unasked_provider_is_untouched(
    start: FindingsView,
    reports: Seq<ProviderReportView>,
    service: ServiceType,
)
    requires
        forall|i: int| 0 <= i < reports.len() ==> (#[trigger] reports[i]).query.service != service,
    ensures
        replay(start, reports).get(service) == start.get(service),
    decreases reports.len(),
{
    if reports.len() > 0 {
        let most = reports.drop_last();
        lemma_unasked_provider_is_untouched(start, most, service);
    }
}

/// Taking in a failure changes nothing: a provider that fails is passed
/// over.
pub proof fn lemma_failure_changes_nothing(findings: FindingsView, report: ProviderReportView)
    requires
        report.answer is Err,
    ensures
        take_in(findings, report) == findings,
{
}

/// Where no provider of the plan is configured, nothing is asked and a
/// title resolves to the record without identifiers that keeps the scraped
/// title and kind.
pub proof fn lemma_no_provider_no_metadata(
    plan: Seq<ServiceType>,
    configured: ProviderFlags,
    title: Seq<char>,
    media_type: MediaType,
    year: Option<i32>,
    reports: Seq<ProviderReportView>,
    findings: FindingsView,
)
    requires
        resolution_course(plan, configured, title, media_type, year, reports, findings),
        forall|j: int| 0 <= j < plan.len() ==> !configured.spec_has(#[trigger] plan[j]),
    ensures
        reports.len() == 0,
        findings.resolve(plan, title, media_type) == (MetadataResultView {
            ids: MediaIdsView::empty(),
            title,
            year: None,
            media_type,
        }),
{
    let enabled = plan.filter(is_enabled(configured));
    assert(enabled.len() == 0) by {
        if enabled.len() > 0 {
            plan.lemma_filter_pred(is_enabled(configured), 0);
            plan.lemma_filter_contains_rev(is_enabled(configured), enabled[0]);
        }
    }
    let searched = replay(FindingsView::empty(), reports.take(0));
    lemma_no_candidate(searched, plan);
    assert(reports.skip(0) =~= reports);
    assert(asked(reports).len() == 0);
    lemma_nothing_found(findings, plan, title, media_type);
}

} // verus!
