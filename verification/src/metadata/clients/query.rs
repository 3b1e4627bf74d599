//! Query parameters that several providers share.

use vstd::prelude::*;
use crate::http::{Param, params_view, push_param};
use crate::text::{decimal, decimal_string};

verus! {

/// The `year` parameter, where a year is given.
pub open spec fn spec_year_param(year: Option<i32>) -> Seq<(Seq<char>, Seq<char>)> {
    match year {
        Some(y) => seq![("year"@, decimal(y as int))],
        None => Seq::empty(),
    }
}

/// Appends the `year` parameter where a year is given.
pub fn push_year(query: &mut Vec<Param>, year: Option<i32>)
    ensures
        params_view(final(query)@) == params_view(old(query)@) + spec_year_param(year),
{
    if let Some(y) = year {
        push_param(query, "year", decimal_string(y));
    }
}

} // verus!
