//! The platform paths that the operations fetch.

use crate::text::{decimal, decimal_string};
use vstd::prelude::*;
use vstd::string::*;

verus! {

/// Path of the problem list of contest `id`.
pub open spec fn problems_path(id: Seq<char>) -> Seq<char> {
    "/contest/"@ + id + "/problems"@
}

/// Path of the details of `submission` in contest `id`.
pub open spec fn details_path(id: Seq<char>, submission: Seq<char>) -> Seq<char> {
    "/contest/"@ + id + "/results/"@ + submission
}

/// The query string of a result list: a limit on the number of rows and a
/// filter on one problem, each present only when asked for.
pub open spec fn results_query(limit: Option<usize>, problem_id: Option<Seq<char>>) -> Seq<char> {
    match (limit, problem_id) {
        (None, None) => Seq::empty(),
        (Some(n), None) => "?results_limit="@ + decimal(n as nat),
        (None, Some(p)) => "?results_filter_problem="@ + p,
        (Some(n), Some(p)) => "?results_limit="@ + decimal(n as nat) + "&results_filter_problem="@
            + p,
    }
}

/// Path of the result list of contest `id`.
pub open spec fn results_path(id: Seq<char>, limit: Option<usize>, problem_id: Option<Seq<char>>) -> Seq<char> {
    "/contest/"@ + id + "/results"@ + results_query(limit, problem_id)
}

/// The characters of an optional string.
pub open spec fn text_view(o: Option<&str>) -> Option<Seq<char>> {
    match o {
        Some(t) => Some(t@),
        None => None,
    }
}

/// Builds the path of the problem list of contest `id`.
pub fn problems_path_of(id: &str) -> (r: String)
    ensures
        r@ == problems_path(id@),
{
    let mut s = String::from_str("/contest/");
    s.append(id);
    s.append("/problems");
    s
}

/// Builds the path of the details of `submission` in contest `id`.
pub fn details_path_of(id: &str, submission: &str) -> (r: String)
    ensures
        r@ == details_path(id@, submission@),
{
    let mut s = String::from_str("/contest/");
    s.append(id);
    s.append("/results/");
    s.append(submission);
    s
}

/// Builds the path of the result list of contest `id`, limited to `limit`
/// rows and to the problem `problem_id` where given.
pub fn results_path_of(id: &str, limit: Option<usize>, problem_id: Option<&str>) -> (r: String)
    ensures
        r@ == results_path(id@, limit, text_view(problem_id)),
{
    let mut s = String::from_str("/contest/");
    s.append(id);
    s.append("/results");
    let ghost base = s@;
    match limit {
        Some(n) => {
            s.append("?results_limit=");
            let digits = decimal_string(n);
            s.append(digits.as_str());
            match problem_id {
                Some(p) => {
                    s.append("&results_filter_problem=");
                    s.append(p);
                },
                None => {},
            }
        },
        None => {
            match problem_id {
                Some(p) => {
                    s.append("?results_filter_problem=");
                    s.append(p);
                },
                None => {},
            }
        },
    }
    proof {
        let q = results_query(limit, text_view(problem_id));
        assert(s@ =~= base + q);
        assert(results_path(id@, limit, text_view(problem_id)) =~= base + q);
    }
    s
}

} // verus!
