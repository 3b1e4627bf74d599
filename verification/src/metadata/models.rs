//! The records that the providers' answers are turned into.

use vstd::prelude::*;

verus! {

/// What kind of work a title is.
#[derive(Debug, Clone, Copy, PartialEq, Eq, Structural, Hash)]
pub enum MediaType {
    Movie,
    Series,
}

/// A metadata catalog service.
#[derive(Debug, Clone, Copy, PartialEq, Eq, Structural, Hash)]
pub enum ServiceType {
    Simkl,
    Tmdb,
    Tvdb,
    Mal,
}

impl ServiceType {
    /// The provider's name, as reports give it.
    pub fn name(self) -> (name: &'static str)
        ensures
            name@ == self.spec_name(),
    {
        match self {
            ServiceType::Simkl => "Simkl",
            ServiceType::Tmdb => "TMDB",
            ServiceType::Tvdb => "TVDB",
            ServiceType::Mal => "MyAnimeList",
        }
    }

    pub open spec fn spec_name(self) -> Seq<char> {
        match self {
            ServiceType::Simkl => "Simkl"@,
            ServiceType::Tmdb => "TMDB"@,
            ServiceType::Tvdb => "TVDB"@,
            ServiceType::Mal => "MyAnimeList"@,
        }
    }
}

/// The order in which providers are asked and in which their answers win.
pub type PriorityOrder = Vec<ServiceType>;

/// A call budget: at most `calls` requests per window of `per_seconds`.
#[derive(Debug, Clone, Copy, PartialEq, Eq, Structural)]
pub struct RateLimit {
    pub calls: u32,
    pub per_seconds: u64,
}

/// The call budget of each provider.
#[derive(Debug, Clone, Copy, PartialEq, Eq, Structural)]
pub struct RateLimitConfig {
    pub simkl: RateLimit,
    pub tmdb: RateLimit,
    pub tvdb: RateLimit,
    pub mal: RateLimit,
}

impl RateLimitConfig {
    /// The budget of one provider.
    pub fn limit_for(&self, service: ServiceType) -> (limit: RateLimit)
        ensures
            limit == self.spec_limit_for(service),
    {
        match service {
            ServiceType::Simkl => self.simkl,
            ServiceType::Tmdb => self.tmdb,
            ServiceType::Tvdb => self.tvdb,
            ServiceType::Mal => self.mal,
        }
    }

    pub open spec fn spec_limit_for(&self, service: ServiceType) -> RateLimit {
        match service {
            ServiceType::Simkl => self.simkl,
            ServiceType::Tmdb => self.tmdb,
            ServiceType::Tvdb => self.tvdb,
            ServiceType::Mal => self.mal,
        }
    }
}

/// The view of an optional string: its characters, where it is present.
pub open spec fn opt_view(o: Option<String>) -> Option<Seq<char>> {
    match o {
        Some(s) => Some(s@),
        None => None,
    }
}

/// A copy of an optional string.
pub fn clone_opt(o: &Option<String>) -> (out: Option<String>)
    ensures
        opt_view(out) == opt_view(*o),
{
    match o {
        Some(s) => Some(s.clone()),
        None => None,
    }
}

/// The key of one entry of a [`MediaIds`].
#[derive(Debug, Clone, Copy, PartialEq, Eq, Structural, Hash)]
pub enum IdKey {
    Simkl,
    Tvdb,
    Tmdb,
    Mal,
    Imdb,
}

/// The external identifiers known for one title. An entry that is not known
/// is `None`.
#[derive(Debug, Clone, PartialEq, Eq)]
pub struct MediaIds {
    pub simkl: Option<String>,
    pub tvdb: Option<String>,
    pub tmdb: Option<String>,
    pub mal: Option<String>,
    /// The IMDb cross-reference that some providers report. No provider of
    /// this library is queried by it.
    pub imdb: Option<String>,
}

/// The mathematical value of a [`MediaIds`].
pub struct MediaIdsView {
    pub simkl: Option<Seq<char>>,
    pub tvdb: Option<Seq<char>>,
    pub tmdb: Option<Seq<char>>,
    pub mal: Option<Seq<char>>,
    pub imdb: Option<Seq<char>>,
}

impl MediaIdsView {
    /// The entry under a key.
    pub open spec fn get(self, key: IdKey) -> Option<Seq<char>> {
        match key {
            IdKey::Simkl => self.simkl,
            IdKey::Tvdb => self.tvdb,
            IdKey::Tmdb => self.tmdb,
            IdKey::Mal => self.mal,
            IdKey::Imdb => self.imdb,
        }
    }

    /// No entry is known.
    pub open spec fn empty() -> MediaIdsView {
        MediaIdsView { simkl: None, tvdb: None, tmdb: None, mal: None, imdb: None }
    }

    /// Every entry that is present is a non-empty string.
    pub open spec fn wf(self) -> bool {
        &&& known(self.simkl) == self.simkl
        &&& known(self.tvdb) == self.tvdb
        &&& known(self.tmdb) == self.tmdb
        &&& known(self.mal) == self.mal
        &&& known(self.imdb) == self.imdb
    }

    /// The entries of `self`, and those of `lower` where `self` has none.
    pub open spec fn merge(self, lower: MediaIdsView) -> MediaIdsView {
        MediaIdsView {
            simkl: first_known(self.simkl, lower.simkl),
            tvdb: first_known(self.tvdb, lower.tvdb),
            tmdb: first_known(self.tmdb, lower.tmdb),
            mal: first_known(self.mal, lower.mal),
            imdb: first_known(self.imdb, lower.imdb),
        }
    }
}

/// The first of two optional values that is present.
pub open spec fn first_known(higher: Option<Seq<char>>, lower: Option<Seq<char>>) -> Option<
    Seq<char>,
> {
    if higher is Some {
        higher
    } else {
        lower
    }
}

/// `None` for an empty string, which stands for no identifier.
pub open spec fn known(id: Option<Seq<char>>) -> Option<Seq<char>> {
    match id {
        Some(s) => if s.len() > 0 {
            Some(s)
        } else {
            None
        },
        None => None,
    }
}

impl View for MediaIds {
    type V = MediaIdsView;

    open spec fn view(&self) -> MediaIdsView {
        MediaIdsView {
            simkl: opt_view(self.simkl),
            tvdb: opt_view(self.tvdb),
            tmdb: opt_view(self.tmdb),
            mal: opt_view(self.mal),
            imdb: opt_view(self.imdb),
        }
    }
}

impl Default for MediaIds {
    fn default() -> (out: MediaIds)
        ensures
            out@ == MediaIdsView::empty(),
    {
        MediaIds { simkl: None, tvdb: None, tmdb: None, mal: None, imdb: None }
    }
}

/// An optional identifier in which the empty string counts as absent.
pub fn normalize_id(id: Option<String>) -> (out: Option<String>)
    ensures
        opt_view(out) == known(opt_view(id)),
{
    match id {
        Some(s) => {
            if s.as_str().unicode_len() == 0 {
                None
            } else {
                Some(s)
            }
        },
        None => None,
    }
}

fn merge_entry(higher: &mut Option<String>, lower: &Option<String>)
    ensures
        opt_view(*final(higher)) == first_known(opt_view(*old(higher)), opt_view(*lower)),
{
    if higher.is_none() {
        *higher = clone_opt(lower);
    }
}

impl MediaIds {
    /// Every entry that is present is a non-empty string.
    pub open spec fn wf(&self) -> bool {
        self@.wf()
    }

    /// The entry under a key.
    pub fn get(&self, key: IdKey) -> (id: &Option<String>)
        ensures
            opt_view(*id) == self@.get(key),
    {
        match key {
            IdKey::Simkl => &self.simkl,
            IdKey::Tvdb => &self.tvdb,
            IdKey::Tmdb => &self.tmdb,
            IdKey::Mal => &self.mal,
            IdKey::Imdb => &self.imdb,
        }
    }

    /// Whether no entry is known.
    pub fn is_empty(&self) -> (empty: bool)
        ensures
            empty == (self@ == MediaIdsView::empty()),
    {
        self.simkl.is_none() && self.tvdb.is_none() && self.tmdb.is_none() && self.mal.is_none()
            && self.imdb.is_none()
    }

    /// A copy of these identifiers.
    pub fn duplicate(&self) -> (out: MediaIds)
        ensures
            out@ == self@,
    {
        MediaIds {
            simkl: clone_opt(&self.simkl),
            tvdb: clone_opt(&self.tvdb),
            tmdb: clone_opt(&self.tmdb),
            mal: clone_opt(&self.mal),
            imdb: clone_opt(&self.imdb),
        }
    }

    /// Takes over from a provider of lower priority every entry that is not
    /// known yet. An entry that is known stays as it is.
    pub fn merge(&mut self, lower: &MediaIds)
        ensures
            final(self)@ == old(self)@.merge(lower@),
            old(self).wf() && lower.wf() ==> final(self).wf(),
    {
        merge_entry(&mut self.simkl, &lower.simkl);
        merge_entry(&mut self.tvdb, &lower.tvdb);
        merge_entry(&mut self.tmdb, &lower.tmdb);
        merge_entry(&mut self.mal, &lower.mal);
        merge_entry(&mut self.imdb, &lower.imdb);
    }
}

/// Merging well-formed identifiers gives well-formed identifiers, and under
/// no key an empty string.
pub proof fn lemma_merge_wf(higher: MediaIdsView, lower: MediaIdsView, key: IdKey)
    requires
        higher.wf(),
        lower.wf(),
    ensures
        higher.merge(lower).wf(),
        higher.merge(lower).get(key) matches Some(id) ==> id.len() > 0,
{
}

/// An entry that a provider of higher priority has set is not altered by a
/// merge, whatever the provider of lower priority reports under that key.
pub proof fn lemma_merge_keeps_known(higher: MediaIdsView, lower: MediaIdsView, key: IdKey)
    requires
        higher.get(key) is Some,
    ensures
        higher.merge(lower).get(key) == higher.get(key),
{
}

/// Merging the same identifiers a second time changes nothing.
pub proof fn lemma_merge_idempotent(higher: MediaIdsView, lower: MediaIdsView)
    ensures
        higher.merge(lower).merge(lower) == higher.merge(lower),
{
}

/// Entries only accumulate: whatever was known before a merge is known after
/// it, unchanged.
pub proof fn lemma_merge_monotone(higher: MediaIdsView, lower: MediaIdsView, key: IdKey)
    ensures
        higher.get(key) is Some ==> higher.merge(lower).get(key) == higher.get(key),
        higher.merge(lower).get(key) is None ==> higher.get(key) is None && lower.get(key) is None,
{
}

/// One provider's answer about one work.
#[derive(Debug, Clone, PartialEq, Eq)]
pub struct MetadataResult {
    pub ids: MediaIds,
    pub title: String,
    pub year: Option<String>,
    pub media_type: MediaType,
}

/// The mathematical value of a [`MetadataResult`].
pub struct MetadataResultView {
    pub ids: MediaIdsView,
    pub title: Seq<char>,
    pub year: Option<Seq<char>>,
    pub media_type: MediaType,
}

impl View for MetadataResult {
    type V = MetadataResultView;

    open spec fn view(&self) -> MetadataResultView {
        MetadataResultView {
            ids: self.ids@,
            title: self.title@,
            year: opt_view(self.year),
            media_type: self.media_type,
        }
    }
}

impl MetadataResult {
    /// The identifiers are well formed.
    pub open spec fn wf(&self) -> bool {
        self.ids.wf()
    }

    /// A copy of this result.
    pub fn duplicate(&self) -> (out: MetadataResult)
        ensures
            out@ == self@,
    {
        MetadataResult {
            ids: self.ids.duplicate(),
            title: self.title.clone(),
            year: clone_opt(&self.year),
            media_type: self.media_type,
        }
    }
}

} // verus!
