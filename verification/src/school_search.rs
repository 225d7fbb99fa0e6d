//! Looking for schools: the functions of `schools` under their long names.

use crate::error::Error;
use crate::jsonrpc::{agrees, Call};
use crate::params::{FindSchoolParams, SchoolQuery};
use crate::resources::{School, SchoolSearchResult};
use crate::schools;
use crate::schools::{caught, first_of, found, is_school_query, listed};
use vstd::prelude::*;

verus! {

/// The call for all schools matching the query.
pub fn search_schools(query: &str) -> (r: Call<Vec<FindSchoolParams>>)
    ensures
        is_school_query(r, SchoolQuery::Search(query@)),
{
    schools::search(query)
}

/// The call for a school by its id.
pub fn get_school_by_id(id: &usize) -> (r: Call<Vec<FindSchoolParams>>)
    ensures
        is_school_query(r, SchoolQuery::ById(*id)),
{
    schools::get_by_id(id)
}

/// The call for a school by its login name.
pub fn get_school_by_name(name: &str) -> (r: Call<Vec<FindSchoolParams>>)
    ensures
        is_school_query(r, SchoolQuery::ByName(name@)),
{
    schools::get_by_name(name)
}

/// The first school of a list.
pub fn get_first(list: Vec<School>) -> (r: Result<School, Error>)
    ensures
        agrees(r, first_of(list@)),
{
    schools::get_first(list)
}

/// The schools of a search, or an empty vec if there are too many results.
pub fn catch_err(result: Result<SchoolSearchResult, Error>) -> (r: Result<Vec<School>, Error>)
    ensures
        listed(r) == caught(result),
{
    schools::catch_too_many(result)
}

/// The one school of a search for an id or a login name.
pub fn first_found(result: Result<SchoolSearchResult, Error>) -> (r: Result<School, Error>)
    ensures
        agrees(r, found(result)),
{
    schools::first_found(result)
}

} // verus!
