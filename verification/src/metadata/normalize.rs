//! The rules by which a provider's answer becomes a record: which title,
//! which year, which kind of work.

use vstd::prelude::*;
use crate::metadata::models::{MediaType, first_known, opt_view};
use crate::text::{find_first, first_index, leading, lemma_first_index, same_text};

verus! {

/// The year of a date: what stands before its first `-`, and of that at most
/// the first four characters.
pub open spec fn year_of_date(date: Seq<char>) -> Seq<char> {
    let cut = first_index(date, '-');
    date.take(
        if cut < 4 {
            cut
        } else {
            4
        },
    )
}

/// The year of the release date where there is one, else of the date of
/// first airing, else none.
pub open spec fn year_from(release: Option<Seq<char>>, first_air: Option<Seq<char>>) -> Option<
    Seq<char>,
> {
    match first_known(release, first_air) {
        Some(date) => Some(year_of_date(date)),
        None => None,
    }
}

/// The title of a work that may have a movie-style and a series-style title:
/// the movie-style one where it is not empty, else the other.
pub open spec fn pick_title(movie_title: Seq<char>, series_title: Seq<char>) -> Seq<char> {
    if movie_title.len() > 0 {
        movie_title
    } else {
        series_title
    }
}

/// The kind of a work. Where the provider declares `tv` or `movie`, that is
/// taken. Otherwise a work with a movie-style title counts as a movie and any
/// other as a series, which can misjudge a movie that comes without one.
pub open spec fn spec_infer_media_type(declared: Option<Seq<char>>, movie_title: Seq<char>)
    -> MediaType {
    if declared == Some("tv"@) {
        MediaType::Series
    } else if declared == Some("movie"@) {
        MediaType::Movie
    } else if movie_title.len() > 0 {
        MediaType::Movie
    } else {
        MediaType::Series
    }
}

/// The characters of an optional string, or none where it is absent.
pub open spec fn text_or_empty(text: Option<Seq<char>>) -> Seq<char> {
    match text {
        Some(t) => t,
        None => Seq::empty(),
    }
}

/// The year of a date.
pub fn extract_year(date: &str) -> (year: String)
    ensures
        year@ == year_of_date(date@),
        year@.len() <= 4,
{
    let cut = find_first(date, '-');
    proof {
        lemma_first_index(date@, '-');
    }
    let count: usize = if cut < 4 {
        cut
    } else {
        4
    };
    leading(date, count)
}

/// The year of the first date that is present.
pub fn year_of(release: &Option<String>, first_air: &Option<String>) -> (year: Option<String>)
    ensures
        opt_view(year) == year_from(opt_view(*release), opt_view(*first_air)),
{
    match release {
        Some(date) => Some(extract_year(date.as_str())),
        None => match first_air {
            Some(date) => Some(extract_year(date.as_str())),
            None => None,
        },
    }
}

/// The kind of a work, from what the provider declares and from its
/// movie-style title.
pub fn infer_media_type(declared: &Option<String>, movie_title: &str) -> (kind: MediaType)
    ensures
        kind == spec_infer_media_type(opt_view(*declared), movie_title@),
{
    let says_tv = match declared {
        Some(d) => same_text(d.as_str(), "tv"),
        None => false,
    };
    let says_movie = match declared {
        Some(d) => same_text(d.as_str(), "movie"),
        None => false,
    };
    if says_tv {
        MediaType::Series
    } else if says_movie {
        MediaType::Movie
    } else if !movie_title.is_empty() {
        MediaType::Movie
    } else {
        MediaType::Series
    }
}

/// The year of a date that starts with four characters other than `-`,
/// followed by `-`, is those four characters.
pub proof fn lemma_year_of_iso_date(date: Seq<char>)
    requires
        date.len() > 4,
        date[4] == '-',
        forall|i: int| 0 <= i < 4 ==> date[i] != '-',
    ensures
        year_of_date(date) == date.take(4),
{
    crate::text::lemma_first_index_is(date, '-', 4);
}

/// A year never holds `-` and never more than four characters.
pub proof fn lemma_year_shape(date: Seq<char>)
    ensures
        year_of_date(date).len() <= 4,
        forall|i: int| 0 <= i < year_of_date(date).len() ==> year_of_date(date)[i] != '-',
{
    lemma_first_index(date, '-');
}

} // verus!
