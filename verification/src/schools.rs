//! Looking for schools.

use crate::error::{Error, ErrorView};
use crate::jsonrpc;
use crate::jsonrpc::{agrees, Call, ErrorCode};
use crate::params::{FindSchoolParams, SchoolQuery};
use crate::resources::{School, SchoolSearchResult};
use crate::text::decimal;
use vstd::prelude::*;
use vstd::string::*;

verus! {

/// The endpoint of the school search.
pub open spec fn school_query_url() -> Seq<char> {
    "https://mobile.webuntis.com/ms/schoolquery2"@
}

/// Whether `call` is the first call of a client of the school search, and
/// asks `searchSchool` the one query `query`.
pub open spec fn is_school_query(call: Call<Vec<FindSchoolParams>>, query: SchoolQuery) -> bool {
    &&& call.url@ == school_query_url()
    &&& call.request.jsonrpc@ == "2.0"@
    &&& call.request.id@ == decimal(1)
    &&& call.request.method@ == "searchSchool"@
    &&& call.request.params@.len() == 1
    &&& call.request.params@[0]@ == query
}

/// The schools of a search: those of a result; none where the server
/// found too many; and else the error of the search.
pub open spec fn caught(result: Result<SchoolSearchResult, Error>) -> Result<
    Seq<School>,
    ErrorView,
> {
    match result {
        Ok(found) => Ok(found.schools@),
        Err(Error::Rpc(error)) => if error.code == ErrorCode::TooManyResults.code() {
            Ok(Seq::empty())
        } else {
            Err(ErrorView::Rpc(error@))
        },
        Err(e) => Err(e@),
    }
}

/// A list of schools or an error as a mathematical value.
pub open spec fn listed(r: Result<Vec<School>, Error>) -> Result<Seq<School>, ErrorView> {
    match r {
        Ok(list) => Ok(list@),
        Err(e) => Err(e@),
    }
}

/// The first school of a list, which an empty list has not.
pub open spec fn first_of(list: Seq<School>) -> Result<School, ErrorView> {
    if list.len() == 0 {
        Err(ErrorView::NotFound)
    } else {
        Ok(list[0])
    }
}

/// The one school of a search: the first of those that `caught` gives.
pub open spec fn found(result: Result<SchoolSearchResult, Error>) -> Result<School, ErrorView> {
    match caught(result) {
        Ok(list) => first_of(list),
        Err(e) => Err(e),
    }
}

fn get_client() -> (r: jsonrpc::Client)
    ensures
        r@ == (jsonrpc::Numbering { url: school_query_url(), issued: 0 }),
{
    jsonrpc::Client::new("https://mobile.webuntis.com/ms/schoolquery2")
}

fn query(params: FindSchoolParams) -> (r: Call<Vec<FindSchoolParams>>)
    ensures
        is_school_query(r, params@),
{
    let mut client = get_client();
    let mut list: Vec<FindSchoolParams> = Vec::new();
    list.push(params);
    let request = client.request("searchSchool", list);
    Call { url: String::from_str(client.url()), request }
}

/// The call for all schools matching the query.
pub fn search(query: &str) -> (r: Call<Vec<FindSchoolParams>>)
    ensures
        is_school_query(r, SchoolQuery::Search(query@)),
{
    self::query(FindSchoolParams::Search { search: String::from_str(query) })
}

/// The call for a school by its id.
pub fn get_by_id(id: &usize) -> (r: Call<Vec<FindSchoolParams>>)
    ensures
        is_school_query(r, SchoolQuery::ById(*id)),
{
    self::query(FindSchoolParams::ById { schoolid: *id })
}

/// The call for a school by its login name.
pub fn get_by_name(name: &str) -> (r: Call<Vec<FindSchoolParams>>)
    ensures
        is_school_query(r, SchoolQuery::ByName(name@)),
{
    self::query(FindSchoolParams::ByName { schoolname: String::from_str(name) })
}

/// The first school of a list.
pub fn get_first(list: Vec<School>) -> (r: Result<School, Error>)
    ensures
        agrees(r, first_of(list@)),
{
    let mut list = list;
    if list.len() == 0 {
        Err(Error::NotFound)
    } else {
        Ok(list.swap_remove(0))
    }
}

/// The schools of a search, or an empty vec if there are too many results.
pub fn catch_too_many(result: Result<SchoolSearchResult, Error>) -> (r: Result<Vec<School>, Error>)
    ensures
        listed(r) == caught(result),
{
    match result {
        Ok(v) => Ok(v.schools),
        Err(Error::Rpc(err)) => {
            if err.code == ErrorCode::TooManyResults.as_isize() {
                Ok(Vec::new())
            } else {
                Err(Error::Rpc(err))
            }
        },
        Err(err) => Err(err),
    }
}

/// The one school of a search for an id or a login name.
pub fn first_found(result: Result<SchoolSearchResult, Error>) -> (r: Result<School, Error>)
    ensures
        agrees(r, found(result)),
{
    match catch_too_many(result) {
        Ok(list) => get_first(list),
        Err(e) => Err(e),
    }
}

/// Where the server answers a search with the code for too many results,
/// the search has found no school, and has not failed.
pub proof fn lemma_too_many_results_is_empty(error: jsonrpc::Error)
    requires
        error.code == ErrorCode::TooManyResults.code(),
    ensures
        caught(Err(Error::Rpc(error))) == Ok::<Seq<School>, ErrorView>(Seq::empty()),
        found(Err(Error::Rpc(error))) == Err::<School, ErrorView>(ErrorView::NotFound),
{
}

/// Every other error of a search is that of the caller, unchanged.
pub proof fn lemma_other_errors_pass(e: Error)
    requires
        e matches Error::Rpc(error) ==> error.code != ErrorCode::TooManyResults.code(),
    ensures
        caught(Err(e)) == Err::<Seq<School>, ErrorView>(e@),
        found(Err(e)) == Err::<School, ErrorView>(e@),
{
}

} // verus!
