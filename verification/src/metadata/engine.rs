//! The resolution engine: which providers are asked for a title, in which
//! order, and how what they report becomes the identity record.

use vstd::prelude::*;
use crate::error::{AppError, AppErrorView};
use crate::metadata::models::{
    IdKey, MediaIds, MediaIdsView, MediaType, MetadataResult, MetadataResultView, ServiceType,
    clone_opt, known, normalize_id,
};
use crate::metadata::provider::results_view;

verus! {

/// Which providers are enabled.
#[derive(Debug, Clone, Copy, PartialEq, Eq, Structural)]
pub struct ProviderFlags {
    pub simkl: bool,
    pub tmdb: bool,
    pub tvdb: bool,
    pub mal: bool,
}

impl ProviderFlags {
    /// No provider.
    pub fn none() -> (flags: ProviderFlags)
        ensures
            forall|service: ServiceType| !flags.spec_has(service),
    {
        ProviderFlags { simkl: false, tmdb: false, tvdb: false, mal: false }
    }

    /// Every provider.
    pub fn all() -> (flags: ProviderFlags)
        ensures
            forall|service: ServiceType| flags.spec_has(service),
    {
        ProviderFlags { simkl: true, tmdb: true, tvdb: true, mal: true }
    }

    pub open spec fn spec_has(self, service: ServiceType) -> bool {
        match service {
            ServiceType::Simkl => self.simkl,
            ServiceType::Tmdb => self.tmdb,
            ServiceType::Tvdb => self.tvdb,
            ServiceType::Mal => self.mal,
        }
    }

    /// These flags, and `service` too.
    pub open spec fn spec_with(self, service: ServiceType) -> ProviderFlags {
        match service {
            ServiceType::Simkl => ProviderFlags { simkl: true, ..self },
            ServiceType::Tmdb => ProviderFlags { tmdb: true, ..self },
            ServiceType::Tvdb => ProviderFlags { tvdb: true, ..self },
            ServiceType::Mal => ProviderFlags { mal: true, ..self },
        }
    }

    /// Whether the provider is among these.
    pub fn has(self, service: ServiceType) -> (enabled: bool)
        ensures
            enabled == self.spec_has(service),
    {
        match service {
            ServiceType::Simkl => self.simkl,
            ServiceType::Tmdb => self.tmdb,
            ServiceType::Tvdb => self.tvdb,
            ServiceType::Mal => self.mal,
        }
    }

    /// These flags, and `service` too.
    pub fn with(self, service: ServiceType) -> (flags: ProviderFlags)
        ensures
            flags == self.spec_with(service),
    {
        match service {
            ServiceType::Simkl => ProviderFlags { simkl: true, ..self },
            ServiceType::Tmdb => ProviderFlags { tmdb: true, ..self },
            ServiceType::Tvdb => ProviderFlags { tvdb: true, ..self },
            ServiceType::Mal => ProviderFlags { mal: true, ..self },
        }
    }
}

/// What one provider has contributed to a title.
pub struct FindingView {
    /// Its first search result, which may become the canonical record.
    pub candidate: Option<MetadataResultView>,
    /// The identifiers that it has reported, from its search or from a
    /// lookup made for them.
    pub ids: Option<MediaIdsView>,
}

/// The mathematical value of a [`Findings`]: what each provider has
/// contributed.
pub struct FindingsView {
    pub simkl: FindingView,
    pub tmdb: FindingView,
    pub tvdb: FindingView,
    pub mal: FindingView,
}

/// The identifiers with every empty one taken for absent.
pub open spec fn normalized(ids: MediaIdsView) -> MediaIdsView {
    MediaIdsView {
        simkl: known(ids.simkl),
        tvdb: known(ids.tvdb),
        tmdb: known(ids.tmdb),
        mal: known(ids.mal),
        imdb: known(ids.imdb),
    }
}

/// The result with its identifiers normalized.
pub open spec fn normalized_result(result: MetadataResultView) -> MetadataResultView {
    MetadataResultView { ids: normalized(result.ids), ..result }
}

impl FindingView {
    /// Nothing contributed.
    pub open spec fn empty() -> FindingView {
        FindingView { candidate: None, ids: None }
    }

    /// The identifiers that are held are well formed.
    pub open spec fn wf(self) -> bool {
        &&& self.candidate is Some ==> self.candidate->0.ids.wf()
        &&& self.ids is Some ==> self.ids->0.wf()
    }

    /// After a search: the first result, where there is one, is the
    /// candidate and its identifiers are held. A search without results
    /// changes nothing.
    pub open spec fn with_search(self, results: Seq<MetadataResultView>) -> FindingView {
        if results.len() > 0 {
            FindingView {
                candidate: Some(normalized_result(results[0])),
                ids: Some(normalized(results[0].ids)),
            }
        } else {
            self
        }
    }

    /// After a lookup for identifiers: those of the first result are held,
    /// unless identifiers are held already. A lookup never makes a candidate.
    pub open spec fn with_lookup(self, results: Seq<MetadataResultView>) -> FindingView {
        if results.len() > 0 && self.ids is None {
            FindingView { ids: Some(normalized(results[0].ids)), ..self }
        } else {
            self
        }
    }
}

impl FindingsView {
    /// Nothing contributed by anyone.
    pub open spec fn empty() -> FindingsView {
        FindingsView {
            simkl: FindingView::empty(),
            tmdb: FindingView::empty(),
            tvdb: FindingView::empty(),
            mal: FindingView::empty(),
        }
    }

    /// What one provider has contributed.
    pub open spec fn get(self, service: ServiceType) -> FindingView {
        match service {
            ServiceType::Simkl => self.simkl,
            ServiceType::Tmdb => self.tmdb,
            ServiceType::Tvdb => self.tvdb,
            ServiceType::Mal => self.mal,
        }
    }

    /// These findings with another contribution of one provider.
    pub open spec fn set(self, service: ServiceType, finding: FindingView) -> FindingsView {
        match service {
            ServiceType::Simkl => FindingsView { simkl: finding, ..self },
            ServiceType::Tmdb => FindingsView { tmdb: finding, ..self },
            ServiceType::Tvdb => FindingsView { tvdb: finding, ..self },
            ServiceType::Mal => FindingsView { mal: finding, ..self },
        }
    }

    pub open spec fn wf(self) -> bool {
        forall|service: ServiceType| (#[trigger] self.get(service)).wf()
    }

    /// After a search of one provider.
    pub open spec fn with_search(self, service: ServiceType, results: Seq<MetadataResultView>)
        -> FindingsView {
        self.set(service, self.get(service).with_search(results))
    }

    /// After a lookup for identifiers at one provider.
    pub open spec fn with_lookup(self, service: ServiceType, results: Seq<MetadataResultView>)
        -> FindingsView {
        self.set(service, self.get(service).with_lookup(results))
    }

    /// The canonical record: the candidate of the first provider of `plan`
    /// that has one.
    pub open spec fn canonical(self, plan: Seq<ServiceType>) -> Option<MetadataResultView>
        decreases plan.len(),
    {
        if plan.len() == 0 {
            None
        } else {
            match self.canonical(plan.drop_last()) {
                Some(earlier) => Some(earlier),
                None => self.get(plan.last()).candidate,
            }
        }
    }

    /// The identifiers of all providers of `plan`: under each key the entry
    /// of the first provider of `plan` that has reported one.
    pub open spec fn merged_ids(self, plan: Seq<ServiceType>) -> MediaIdsView
        decreases plan.len(),
    {
        if plan.len() == 0 {
            MediaIdsView::empty()
        } else {
            let earlier = self.merged_ids(plan.drop_last());
            match self.get(plan.last()).ids {
                Some(ids) => earlier.merge(ids),
                None => earlier,
            }
        }
    }

    /// The identity record of a title. Title, year and kind are those of the
    /// canonical record; without one the title and kind are those that were
    /// scraped and there is no year. The identifiers are the merged ones.
    pub open spec fn resolve(self, plan: Seq<ServiceType>, title: Seq<char>, media_type: MediaType)
        -> MetadataResultView {
        match self.canonical(plan) {
            Some(canonical) => MetadataResultView {
                ids: self.merged_ids(plan),
                title: canonical.title,
                year: canonical.year,
                media_type: canonical.media_type,
            },
            None => MetadataResultView {
                ids: self.merged_ids(plan),
                title,
                year: None,
                media_type,
            },
        }
    }
}

/// The providers to ask, in order: those of `priority` that are enabled.
pub open spec fn spec_plan(priority: Seq<ServiceType>, enabled: ProviderFlags) -> Seq<ServiceType> {
    priority.filter(is_enabled(enabled))
}

/// The test for a provider being enabled.
pub open spec fn is_enabled(enabled: ProviderFlags) -> spec_fn(ServiceType) -> bool {
    |service: ServiceType| enabled.spec_has(service)
}

/// The message of the error for a priority order that names a provider
/// twice.
pub open spec fn repeated_provider_message() -> Seq<char> {
    "priority order names a provider twice"@
}

/// The message of the error for a configuration that enables no provider of
/// the priority order.
pub open spec fn no_provider_message() -> Seq<char> {
    "no provider is enabled"@
}

/// What the making of an engine yields: a priority order that names a
/// provider twice is refused, then one of which no provider is enabled;
/// otherwise the plan.
pub open spec fn spec_new_engine(priority: Seq<ServiceType>, enabled: ProviderFlags) -> Result<
    Seq<ServiceType>,
    AppErrorView,
> {
    if !priority.no_duplicates() {
        Err(AppErrorView::Config(repeated_provider_message()))
    } else if spec_plan(priority, enabled).len() == 0 {
        Err(AppErrorView::Config(no_provider_message()))
    } else {
        Ok(spec_plan(priority, enabled))
    }
}

/// The identifiers with every empty one taken for absent.
pub fn normalize_ids(ids: &MediaIds) -> (out: MediaIds)
    ensures
        out@ == normalized(ids@),
        out.wf(),
{
    let out = MediaIds {
        simkl: normalize_id(clone_opt(&ids.simkl)),
        tvdb: normalize_id(clone_opt(&ids.tvdb)),
        tmdb: normalize_id(clone_opt(&ids.tmdb)),
        mal: normalize_id(clone_opt(&ids.mal)),
        imdb: normalize_id(clone_opt(&ids.imdb)),
    };
    proof {
        lemma_normalized_wf(ids@);
    }
    out
}

/// Normalized identifiers are well formed.
pub proof fn lemma_normalized_wf(ids: MediaIdsView)
    ensures
        normalized(ids).wf(),
        ids.wf() ==> normalized(ids) == ids,
{
}

struct Finding {
    candidate: Option<MetadataResult>,
    ids: Option<MediaIds>,
}

impl View for Finding {
    type V = FindingView;

    closed spec fn view(&self) -> FindingView {
        FindingView {
            candidate: match self.candidate {
                Some(result) => Some(result@),
                None => None,
            },
            ids: match self.ids {
                Some(ids) => Some(ids@),
                None => None,
            },
        }
    }
}

impl Finding {
    fn empty() -> (finding: Finding)
        ensures
            finding@ == FindingView::empty(),
    {
        Finding { candidate: None, ids: None }
    }

    fn after_search(&self, results: &Vec<MetadataResult>) -> (finding: Finding)
        requires
            self@.wf(),
        ensures
            finding@ == self@.with_search(results_view(results@)),
            finding@.wf(),
    {
        if results.len() > 0 {
            let first = &results[0];
            Finding {
                candidate: Some(
                    MetadataResult {
                        ids: normalize_ids(&first.ids),
                        title: first.title.clone(),
                        year: clone_opt(&first.year),
                        media_type: first.media_type,
                    },
                ),
                ids: Some(normalize_ids(&first.ids)),
            }
        } else {
            self.duplicate()
        }
    }

    fn after_lookup(&self, results: &Vec<MetadataResult>) -> (finding: Finding)
        requires
            self@.wf(),
        ensures
            finding@ == self@.with_lookup(results_view(results@)),
            finding@.wf(),
    {
        if results.len() > 0 && self.ids.is_none() {
            Finding {
                candidate: match &self.candidate {
                    Some(result) => Some(result.duplicate()),
                    None => None,
                },
                ids: Some(normalize_ids(&results[0].ids)),
            }
        } else {
            self.duplicate()
        }
    }

    fn duplicate(&self) -> (finding: Finding)
        ensures
            finding@ == self@,
    {
        Finding {
            candidate: match &self.candidate {
                Some(result) => Some(result.duplicate()),
                None => None,
            },
            ids: match &self.ids {
                Some(ids) => Some(ids.duplicate()),
                None => None,
            },
        }
    }
}

/// What the providers have contributed to one title so far.
pub struct Findings {
    simkl: Finding,
    tmdb: Finding,
    tvdb: Finding,
    mal: Finding,
}

impl View for Findings {
    type V = FindingsView;

    closed spec fn view(&self) -> FindingsView {
        FindingsView { simkl: self.simkl@, tmdb: self.tmdb@, tvdb: self.tvdb@, mal: self.mal@ }
    }
}

impl Findings {
    #[verifier::type_invariant]
    spec fn well_formed(&self) -> bool {
        self@.wf()
    }

    /// Nothing contributed yet.
    pub fn new() -> (findings: Findings)
        ensures
            findings@ == FindingsView::empty(),
    {
        Findings {
            simkl: Finding::empty(),
            tmdb: Finding::empty(),
            tvdb: Finding::empty(),
            mal: Finding::empty(),
        }
    }

    fn slot(&self, service: ServiceType) -> (finding: &Finding)
        ensures
            finding@ == self@.get(service),
            finding@.wf(),
            self@.wf(),
    {
        proof {
            use_type_invariant(self);
        }
        match service {
            ServiceType::Simkl => &self.simkl,
            ServiceType::Tmdb => &self.tmdb,
            ServiceType::Tvdb => &self.tvdb,
            ServiceType::Mal => &self.mal,
        }
    }

    fn put(&mut self, service: ServiceType, finding: Finding)
        requires
            finding@.wf(),
        ensures
            final(self)@ == old(self)@.set(service, finding@),
    {
        proof {
            use_type_invariant(&*self);
            let after = old(self)@.set(service, finding@);
            assert forall|other: ServiceType| (#[trigger] after.get(other)).wf() by {
                if other != service {
                    assert(after.get(other) == old(self)@.get(other));
                }
            }
        }
        match service {
            ServiceType::Simkl => {
                self.simkl = finding;
            },
            ServiceType::Tmdb => {
                self.tmdb = finding;
            },
            ServiceType::Tvdb => {
                self.tvdb = finding;
            },
            ServiceType::Mal => {
                self.mal = finding;
            },
        }
    }

    /// Takes in the results of a search of one provider.
    pub fn record_search(&mut self, service: ServiceType, results: &Vec<MetadataResult>)
        ensures
            final(self)@ == old(self)@.with_search(service, results_view(results@)),
            final(self)@.wf(),
    {
        let finding = self.slot(service).after_search(results);
        self.put(service, finding);
        proof {
            use_type_invariant(&*self);
        }
    }

    /// Takes in the results of a lookup for identifiers at one provider.
    pub fn record_lookup(&mut self, service: ServiceType, results: &Vec<MetadataResult>)
        ensures
            final(self)@ == old(self)@.with_lookup(service, results_view(results@)),
            final(self)@.wf(),
    {
        let finding = self.slot(service).after_lookup(results);
        self.put(service, finding);
        proof {
            use_type_invariant(&*self);
        }
    }

    /// Whether the provider has reported no identifiers yet.
    pub fn lacks_ids(&self, service: ServiceType) -> (lacking: bool)
        ensures
            lacking == (self@.get(service).ids is None),
    {
        self.slot(service).ids.is_none()
    }

    /// Whether the provider has a candidate for the canonical record.
    pub fn has_candidate(&self, service: ServiceType) -> (has: bool)
        ensures
            has == (self@.get(service).candidate is Some),
    {
        self.slot(service).candidate.is_some()
    }
}

/// One question to one provider: a search for a title.
#[derive(Debug, Clone, PartialEq, Eq)]
pub struct ProviderQuery {
    pub service: ServiceType,
    pub title: String,
    pub media_type: MediaType,
    pub year: Option<i32>,
}

/// The mathematical value of a [`ProviderQuery`].
pub struct ProviderQueryView {
    pub service: ServiceType,
    pub title: Seq<char>,
    pub media_type: MediaType,
    pub year: Option<i32>,
}

impl View for ProviderQuery {
    type V = ProviderQueryView;

    open spec fn view(&self) -> ProviderQueryView {
        ProviderQueryView {
            service: self.service,
            title: self.title@,
            media_type: self.media_type,
            year: self.year,
        }
    }
}

impl ProviderQuery {
    /// A copy of this query.
    pub fn duplicate(&self) -> (out: ProviderQuery)
        ensures
            out@ == self@,
    {
        ProviderQuery {
            service: self.service,
            title: self.title.clone(),
            media_type: self.media_type,
            year: self.year,
        }
    }
}

/// The views of a list of queries, in order.
pub open spec fn queries_view(queries: Seq<ProviderQuery>) -> Seq<ProviderQueryView> {
    Seq::new(queries.len(), |i: int| queries[i]@)
}

/// The same search of each of `targets`, in order.
pub open spec fn spec_queries(
    targets: Seq<ServiceType>,
    title: Seq<char>,
    media_type: MediaType,
    year: Option<i32>,
) -> Seq<ProviderQueryView> {
    Seq::new(
        targets.len(),
        |i: int| ProviderQueryView { service: targets[i], title, media_type, year },
    )
}

/// The test for a provider being configured and having reported no
/// identifiers.
pub open spec fn lacks_ids(configured: ProviderFlags, findings: FindingsView) -> spec_fn(
    ServiceType,
) -> bool {
    |service: ServiceType| configured.spec_has(service) && findings.get(service).ids is None
}

/// The lookups for identifiers that are due after the searches.
pub open spec fn spec_lookup_queries(
    plan: Seq<ServiceType>,
    configured: ProviderFlags,
    findings: FindingsView,
) -> Seq<ProviderQueryView> {
    match findings.canonical(plan) {
        Some(canonical) => spec_queries(
            plan.filter(lacks_ids(configured, findings)),
            canonical.title,
            canonical.media_type,
            None,
        ),
        None => Seq::empty(),
    }
}

/// Every query goes to a provider of the plan that is configured.
pub open spec fn queries_from(
    queries: Seq<ProviderQuery>,
    plan: Seq<ServiceType>,
    configured: ProviderFlags,
) -> bool {
    forall|k: int|
        0 <= k < queries.len() ==> plan.contains((#[trigger] queries[k]).service)
            && configured.spec_has(queries[k].service)
}

/// The engine that turns what the providers report on a title into its
/// identity record.
#[derive(Debug)]
pub struct ResolutionEngine {
    plan: Vec<ServiceType>,
}

impl ResolutionEngine {
    #[verifier::type_invariant]
    spec fn well_formed(&self) -> bool {
        self.plan@.len() > 0 && self.plan@.no_duplicates()
    }

    /// The providers that the engine asks, in the order of their priority.
    pub closed spec fn plan(&self) -> Seq<ServiceType> {
        self.plan@
    }

    /// An engine for a priority order and the enabled providers.
    pub fn new(priority: Vec<ServiceType>, enabled: ProviderFlags) -> (made: Result<
        ResolutionEngine,
        AppError,
    >)
        ensures
            match spec_new_engine(priority@, enabled) {
                Ok(plan) => made is Ok && made->Ok_0.plan() == plan,
                Err(e) => made is Err && made->Err_0@ == e,
            },
    {
        let mut plan: Vec<ServiceType> = Vec::new();
        let mut seen = ProviderFlags { simkl: false, tmdb: false, tvdb: false, mal: false };
        let mut i: usize = 0;
        while i < priority.len()
            invariant
                i <= priority.len(),
                forall|s: ServiceType|
                    seen.spec_has(s) <==> exists|j: int| 0 <= j < i && priority@[j] == s,
                forall|a: int, b: int| 0 <= a < b < i ==> priority@[a] != priority@[b],
                plan@ == spec_plan(priority@.take(i as int), enabled),
                forall|k: int| 0 <= k < plan@.len() ==> priority@.take(i as int).contains(plan@[k]),
                plan@.no_duplicates(),
            decreases priority.len() - i,
        {
            let service = priority[i];
            if seen.has(service) {
                proof {
                    let j = choose|j: int| 0 <= j < i && priority@[j] == service;
                    assert(priority@[j] == priority@[i as int] && j != i);
                }
                return Err(
                    AppError::ConfigError("priority order names a provider twice".to_owned()),
                );
            }
            proof {
                let before = priority@.take(i as int);
                let upto = priority@.take(i + 1);
                assert(upto =~= before.push(service));
                before.lemma_filter_push(service, is_enabled(enabled));
                assert(upto[i as int] == service);
                assert forall|s: ServiceType|
                    seen.spec_with(service).spec_has(s) <==> exists|j: int|
                        0 <= j < i + 1 && priority@[j] == s by {
                    if seen.spec_has(s) {
                        let j = choose|j: int| 0 <= j < i && priority@[j] == s;
                        assert(0 <= j < i + 1 && priority@[j] == s);
                    }
                }
            }
            seen = seen.with(service);
            if enabled.has(service) {
                plan.push(service);
            }
            i += 1;
        }
        proof {
            assert(priority@.take(priority@.len() as int) =~= priority@);
        }
        if plan.len() == 0 {
            Err(AppError::ConfigError("no provider is enabled".to_owned()))
        } else {
            Ok(ResolutionEngine { plan })
        }
    }

    /// The providers that the engine asks, in order.
    pub fn providers(&self) -> (plan: &Vec<ServiceType>)
        ensures
            plan@ == self.plan(),
            plan@.len() > 0,
            plan@.no_duplicates(),
    {
        proof {
            use_type_invariant(self);
        }
        &self.plan
    }

    /// The canonical record: the candidate of the first provider of the plan
    /// that has one.
    pub fn canonical(&self, findings: &Findings) -> (canonical: Option<MetadataResult>)
        ensures
            match canonical {
                Some(result) => findings@.canonical(self.plan()) == Some(result@),
                None => findings@.canonical(self.plan()) is None,
            },
    {
        let mut canonical: Option<MetadataResult> = None;
        let mut i: usize = 0;
        while i < self.plan.len()
            invariant
                i <= self.plan.len(),
                match canonical {
                    Some(result) => findings@.canonical(self.plan@.take(i as int)) == Some(
                        result@,
                    ),
                    None => findings@.canonical(self.plan@.take(i as int)) is None,
                },
            decreases self.plan.len() - i,
        {
            proof {
                assert(self.plan@.take(i + 1).drop_last() =~= self.plan@.take(i as int));
            }
            if canonical.is_none() {
                canonical = match &findings.slot(self.plan[i]).candidate {
                    Some(result) => Some(result.duplicate()),
                    None => None,
                };
            }
            i += 1;
        }
        proof {
            assert(self.plan@.take(self.plan@.len() as int) =~= self.plan@);
        }
        canonical
    }

    /// Whether some provider of the plan has a candidate for the canonical
    /// record.
    pub fn has_canonical(&self, findings: &Findings) -> (has: bool)
        ensures
            has == (findings@.canonical(self.plan()) is Some),
    {
        self.canonical(findings).is_some()
    }

    /// The searches for a title: one of each configured provider of the
    /// plan, in the order of the plan, for the title as it was scraped.
    pub fn search_queries(
        &self,
        configured: ProviderFlags,
        title: &str,
        media_type: MediaType,
        year: Option<i32>,
    ) -> (queries: Vec<ProviderQuery>)
        ensures
            queries_view(queries@) == spec_queries(
                self.plan().filter(is_enabled(configured)),
                title@,
                media_type,
                year,
            ),
            queries_from(queries@, self.plan(), configured),
    {
        let mut queries: Vec<ProviderQuery> = Vec::new();
        let mut i: usize = 0;
        while i < self.plan.len()
            invariant
                i <= self.plan.len(),
                queries_view(queries@) == spec_queries(
                    self.plan@.take(i as int).filter(is_enabled(configured)),
                    title@,
                    media_type,
                    year,
                ),
                queries_from(queries@, self.plan@, configured),
            decreases self.plan.len() - i,
        {
            let service = self.plan[i];
            let ghost before = queries@;
            proof {
                assert(self.plan@.take(i + 1) =~= self.plan@.take(i as int).push(service));
                self.plan@.take(i as int).lemma_filter_push(service, is_enabled(configured));
            }
            if configured.has(service) {
                queries.push(
                    ProviderQuery { service, title: title.to_owned(), media_type, year },
                );
                proof {
                    let kept = self.plan@.take(i as int).filter(is_enabled(configured));
                    let grown = self.plan@.take(i + 1).filter(is_enabled(configured));
                    assert(queries_view(before).len() == kept.len());
                    assert forall|k: int| 0 <= k < queries@.len() implies queries_view(
                        queries@,
                    )[k] == spec_queries(grown, title@, media_type, year)[k] by {
                        if k < before.len() {
                            assert(queries_view(before)[k] == spec_queries(
                                kept,
                                title@,
                                media_type,
                                year,
                            )[k]);
                        }
                    }
                }
            }
            i += 1;
        }
        proof {
            assert(self.plan@.take(self.plan@.len() as int) =~= self.plan@);
        }
        queries
    }

    /// The lookups for identifiers: where there is a canonical record, one
    /// search of each configured provider of the plan that has reported no
    /// identifiers, in the order of the plan, for the canonical title and
    /// kind, without a year. Without a canonical record, none.
    pub fn lookup_queries(&self, configured: ProviderFlags, findings: &Findings) -> (queries: Vec<
        ProviderQuery,
    >)
        ensures
            queries_view(queries@) == spec_lookup_queries(self.plan(), configured, findings@),
            queries_from(queries@, self.plan(), configured),
    {
        let mut queries: Vec<ProviderQuery> = Vec::new();
        let canonical = match self.canonical(findings) {
            Some(canonical) => canonical,
            None => {
                return queries;
            },
        };
        let ghost wanted = lacks_ids(configured, findings@);
        let mut i: usize = 0;
        while i < self.plan.len()
            invariant
                i <= self.plan.len(),
                wanted == lacks_ids(configured, findings@),
                queries_view(queries@) == spec_queries(
                    self.plan@.take(i as int).filter(wanted),
                    canonical.title@,
                    canonical.media_type,
                    None,
                ),
                queries_from(queries@, self.plan@, configured),
            decreases self.plan.len() - i,
        {
            let service = self.plan[i];
            let ghost before = queries@;
            proof {
                assert(self.plan@.take(i + 1) =~= self.plan@.take(i as int).push(service));
                self.plan@.take(i as int).lemma_filter_push(service, wanted);
            }
            if configured.has(service) && findings.lacks_ids(service) {
                queries.push(
                    ProviderQuery {
                        service,
                        title: canonical.title.clone(),
                        media_type: canonical.media_type,
                        year: None,
                    },
                );
                proof {
                    let kept = self.plan@.take(i as int).filter(wanted);
                    let grown = self.plan@.take(i + 1).filter(wanted);
                    assert(queries_view(before).len() == kept.len());
                    assert forall|k: int| 0 <= k < queries@.len() implies queries_view(
                        queries@,
                    )[k] == spec_queries(grown, canonical.title@, canonical.media_type, None)[k] by {
                        if k < before.len() {
                            assert(queries_view(before)[k] == spec_queries(
                                kept,
                                canonical.title@,
                                canonical.media_type,
                                None,
                            )[k]);
                        }
                    }
                }
            }
            i += 1;
        }
        proof {
            assert(self.plan@.take(self.plan@.len() as int) =~= self.plan@);
        }
        queries
    }

    /// The identifiers of all providers of the plan, merged in its order.
    pub fn merged_ids(&self, findings: &Findings) -> (ids: MediaIds)
        ensures
            ids@ == findings@.merged_ids(self.plan()),
            ids.wf(),
    {
        let mut ids = MediaIds::default();
        let mut i: usize = 0;
        while i < self.plan.len()
            invariant
                i <= self.plan.len(),
                ids@ == findings@.merged_ids(self.plan@.take(i as int)),
                ids.wf(),
            decreases self.plan.len() - i,
        {
            let finding = findings.slot(self.plan[i]);
            proof {
                assert(self.plan@.take(i + 1).drop_last() =~= self.plan@.take(i as int));
            }
            if let Some(found) = &finding.ids {
                ids.merge(found);
            }
            i += 1;
        }
        proof {
            assert(self.plan@.take(self.plan@.len() as int) =~= self.plan@);
        }
        ids
    }

    /// The identity record of a title, from what the providers have
    /// contributed.
    pub fn resolve(&self, title: &str, media_type: MediaType, findings: &Findings) -> (record:
        MetadataResult)
        ensures
            record@ == findings@.resolve(self.plan(), title@, media_type),
            record.wf(),
            findings@.wf(),
    {
        proof {
            use_type_invariant(findings);
        }
        let ids = self.merged_ids(findings);
        match self.canonical(findings) {
            Some(result) => MetadataResult {
                ids,
                title: result.title,
                year: result.year,
                media_type: result.media_type,
            },
            None => MetadataResult { ids, title: title.to_owned(), year: None, media_type },
        }
    }
}

/// First match wins: the canonical record is the candidate of the first
/// provider of the plan that has one, whatever the providers after it have
/// found.
pub proof fn lemma_first_match_wins(findings: FindingsView, plan: Seq<ServiceType>, at: int)
    requires
        0 <= at < plan.len(),
        findings.get(plan[at]).candidate is Some,
        forall|j: int| 0 <= j < at ==> findings.get(#[trigger] plan[j]).candidate is None,
    ensures
        findings.canonical(plan) == findings.get(plan[at]).candidate,
    decreases plan.len(),
{
    let earlier = plan.drop_last();
    if at == plan.len() - 1 {
        lemma_no_candidate(findings, earlier);
    } else {
        lemma_first_match_wins(findings, earlier, at);
    }
}

/// Where no provider of the plan has a candidate, there is no canonical
/// record.
pub proof fn lemma_no_candidate(findings: FindingsView, plan: Seq<ServiceType>)
    requires
        forall|j: int| 0 <= j < plan.len() ==> findings.get(#[trigger] plan[j]).candidate is None,
    ensures
        findings.canonical(plan) is None,
    decreases plan.len(),
{
    if plan.len() > 0 {
        let earlier = plan.drop_last();
        lemma_no_candidate(findings, earlier);
    }
}

/// In which order the searches of two providers complete makes no
/// difference to what is held, and so none to the record.
pub proof fn lemma_completion_order_is_irrelevant(
    findings: FindingsView,
    one: ServiceType,
    one_results: Seq<MetadataResultView>,
    other: ServiceType,
    other_results: Seq<MetadataResultView>,
)
    requires
        one != other,
    ensures
        findings.with_search(one, one_results).with_search(other, other_results)
            == findings.with_search(other, other_results).with_search(one, one_results),
        findings.with_lookup(one, one_results).with_lookup(other, other_results)
            == findings.with_lookup(other, other_results).with_lookup(one, one_results),
        findings.with_search(one, one_results).with_lookup(other, other_results)
            == findings.with_lookup(other, other_results).with_search(one, one_results),
{
}

/// Where two findings agree on the candidates of every provider of the
/// plan, they have the same canonical record.
pub proof fn lemma_canonical_agrees(
    one: FindingsView,
    other: FindingsView,
    plan: Seq<ServiceType>,
)
    requires
        forall|j: int|
            0 <= j < plan.len() ==> one.get(#[trigger] plan[j]).candidate == other.get(
                plan[j],
            ).candidate,
    ensures
        one.canonical(plan) == other.canonical(plan),
    decreases plan.len(),
{
    if plan.len() > 0 {
        let most = plan.drop_last();
        lemma_canonical_agrees(one, other, most);
    }
}

/// Priority decides the canonical record. Once a provider of the plan has a
/// candidate, the canonical record is settled by that provider and those
/// before it: whatever the providers after it return, and in whatever order
/// the searches complete, it stays the same.
pub proof fn lemma_priority_decides_canonical(
    one: FindingsView,
    other: FindingsView,
    plan: Seq<ServiceType>,
    at: int,
)
    requires
        0 <= at < plan.len(),
        one.get(plan[at]).candidate is Some,
        forall|j: int|
            0 <= j <= at ==> one.get(#[trigger] plan[j]).candidate == other.get(
                plan[j],
            ).candidate,
    ensures
        one.canonical(plan) is Some,
        one.canonical(plan) == other.canonical(plan),
        one.canonical(plan) == one.canonical(plan.take(at + 1)),
    decreases plan.len(),
{
    let most = plan.drop_last();
    if at == plan.len() - 1 {
        lemma_canonical_agrees(one, other, most);
        assert(plan.take(at + 1) =~= plan);
    } else {
        lemma_priority_decides_canonical(one, other, most, at);
        assert(most.take(at + 1) =~= plan.take(at + 1));
    }
}

/// Where two findings agree on the identifiers of every provider of the
/// plan, they have the same merged identifiers.
pub proof fn lemma_merged_ids_agree(one: FindingsView, other: FindingsView, plan: Seq<ServiceType>)
    requires
        forall|j: int|
            0 <= j < plan.len() ==> one.get(#[trigger] plan[j]).ids == other.get(plan[j]).ids,
    ensures
        one.merged_ids(plan) == other.merged_ids(plan),
    decreases plan.len(),
{
    if plan.len() > 0 {
        let most = plan.drop_last();
        lemma_merged_ids_agree(one, other, most);
    }
}

/// An identifier that the first providers of the plan have set is not
/// altered by any provider after them: whatever those report under the key,
/// the merged identifiers hold under it what the first ones gave.
pub proof fn lemma_lower_priority_never_overwrites(
    one: FindingsView,
    other: FindingsView,
    plan: Seq<ServiceType>,
    upto: int,
    key: IdKey,
)
    requires
        0 <= upto <= plan.len(),
        one.merged_ids(plan.take(upto)).get(key) is Some,
        forall|j: int| 0 <= j < upto ==> one.get(#[trigger] plan[j]).ids == other.get(plan[j]).ids,
    ensures
        one.merged_ids(plan).get(key) == one.merged_ids(plan.take(upto)).get(key),
        one.merged_ids(plan).get(key) == other.merged_ids(plan).get(key),
{
    let first = plan.take(upto);
    lemma_merged_ids_agree(one, other, first);
    lemma_lower_priority_never_overwrites_from(one, plan, upto, key);
    lemma_lower_priority_never_overwrites_from(other, plan, upto, key);
}

proof fn lemma_appended_provider_keeps_key(
    findings: FindingsView,
    plan: Seq<ServiceType>,
    upto: int,
    key: IdKey,
)
    requires
        0 <= upto < plan.len(),
        findings.merged_ids(plan.take(upto)).get(key) is Some,
    ensures
        findings.merged_ids(plan.take(upto + 1)).get(key) == findings.merged_ids(
            plan.take(upto),
        ).get(key),
{
    let next = plan.take(upto + 1);
    assert(next.drop_last() =~= plan.take(upto));
}

proof fn lemma_lower_priority_never_overwrites_from(
    findings: FindingsView,
    plan: Seq<ServiceType>,
    upto: int,
    key: IdKey,
)
    requires
        0 <= upto <= plan.len(),
        findings.merged_ids(plan.take(upto)).get(key) is Some,
    ensures
        findings.merged_ids(plan).get(key) == findings.merged_ids(plan.take(upto)).get(key),
    decreases plan.len() - upto,
{
    if upto == plan.len() {
        assert(plan.take(upto) =~= plan);
    } else {
        lemma_appended_provider_keeps_key(findings, plan, upto, key);
        lemma_lower_priority_never_overwrites_from(findings, plan, upto + 1, key);
    }
}

/// Under each key the merged identifiers hold the entry of the first
/// provider of the plan that has reported one under that key: what a
/// provider of higher priority has set, no provider of lower priority
/// alters.
pub proof fn lemma_higher_priority_id_wins(
    findings: FindingsView,
    plan: Seq<ServiceType>,
    at: int,
    key: IdKey,
)
    requires
        0 <= at < plan.len(),
        findings.get(plan[at]).ids is Some,
        findings.get(plan[at]).ids->0.get(key) is Some,
        forall|j: int|
            0 <= j < at ==> (findings.get(#[trigger] plan[j]).ids matches Some(ids) ==> ids.get(
                key,
            ) is None),
    ensures
        findings.merged_ids(plan).get(key) == findings.get(plan[at]).ids->0.get(key),
    decreases plan.len(),
{
    let earlier = plan.drop_last();
    if at == plan.len() - 1 {
        lemma_no_id_under_key(findings, earlier, key);
    } else {
        lemma_higher_priority_id_wins(findings, earlier, at, key);
    }
}

/// Where no provider of the plan has reported an identifier under a key,
/// the merged identifiers hold none under it.
pub proof fn lemma_no_id_under_key(findings: FindingsView, plan: Seq<ServiceType>, key: IdKey)
    requires
        forall|j: int|
            0 <= j < plan.len() ==> (findings.get(#[trigger] plan[j]).ids matches Some(ids)
                ==> ids.get(key) is None),
    ensures
        findings.merged_ids(plan).get(key) is None,
    decreases plan.len(),
{
    if plan.len() > 0 {
        let earlier = plan.drop_last();
        lemma_no_id_under_key(findings, earlier, key);
    }
}

/// A title on which no provider of the plan has anything resolves to a
/// record without identifiers that keeps the scraped title and kind.
pub proof fn lemma_nothing_found(
    findings: FindingsView,
    plan: Seq<ServiceType>,
    title: Seq<char>,
    media_type: MediaType,
)
    requires
        forall|j: int| 0 <= j < plan.len() ==> findings.get(#[trigger] plan[j])
            == FindingView::empty(),
    ensures
        findings.resolve(plan, title, media_type) == (MetadataResultView {
            ids: MediaIdsView::empty(),
            title,
            year: None,
            media_type,
        }),
{
    lemma_no_candidate(findings, plan);
    lemma_no_ids(findings, plan);
}

proof fn lemma_no_ids(findings: FindingsView, plan: Seq<ServiceType>)
    requires
        forall|j: int| 0 <= j < plan.len() ==> findings.get(#[trigger] plan[j]).ids is None,
    ensures
        findings.merged_ids(plan) == MediaIdsView::empty(),
    decreases plan.len(),
{
    if plan.len() > 0 {
        let earlier = plan.drop_last();
        lemma_no_ids(findings, earlier);
    }
}

/// A provider whose identifiers are already held changes nothing by
/// reporting again in a lookup.
pub proof fn lemma_lookup_keeps_held_ids(
    findings: FindingsView,
    service: ServiceType,
    results: Seq<MetadataResultView>,
)
    requires
        findings.get(service).ids is Some,
    ensures
        findings.with_lookup(service, results) == findings,
{
}

} // verus!
