//! The entities scraped from the platform, the error taxonomy, and the
//! business operations every front end offers.

use crate::paths::text_view;
use vstd::prelude::*;

verus! {

/// A contest the user has joined.
#[derive(Debug)]
pub struct Contest {
    pub id: String,
    pub name: String,
    pub description: String,
}

/// A problem of a contest. An empty `id` means that the problem cannot be
/// submitted to in the contest's current state.
#[derive(Debug)]
pub struct Problem {
    pub contest_id: String,
    pub id: String,
    pub code: String,
    pub name: String,
    pub pdf_url: String,
    pub deadline: String,
    pub submit_url: String,
}

/// One row of a contest's result list.
#[derive(Debug)]
pub struct ShortResult {
    pub submission_id: String,
    pub problem_code: String,
    pub time: String,
    pub status: String,
}

/// The verdict on one test case of a submission.
#[derive(Debug)]
pub struct TestCaseResult {
    pub test_case: String,
    pub status: String,
    pub time: String,
}

/// A submission with its per-test verdicts, in page order.
#[derive(Debug)]
pub struct ResultDetails {
    pub submission_id: String,
    pub problem_code: String,
    pub time: String,
    pub status: String,
    pub test_results: Vec<TestCaseResult>,
}

/// Why an operation did not produce its value.
#[derive(Debug)]
pub enum SatoriError {
    /// The page came back without a logged-in user; a new login may help.
    NotLoggedIn,
    /// The credentials were refused, the login request failed, or the
    /// operator declined to give credentials.
    LoginFailed,
    /// A page was fetched but did not have the expected structure.
    ParsingFailed,
    /// The transport returned no usable response.
    ConnectionFailed,
    /// A disambiguation choice was declined or out of range.
    InvalidChoice,
    /// More than one contest matched the query.
    AmbiguousContest(AmbiguousNameError<Contest>),
    /// More than one problem matched the query.
    AmbiguousProblem(AmbiguousNameError<Problem>),
    /// No contest matched the query.
    ContestNotFound,
    /// No problem matched the query.
    ProblemNotFound,
    /// The requested submission does not exist.
    SubmissionNotFound,
}

/// A query that matched several entities, with those entities in page order.
#[derive(Debug)]
pub struct AmbiguousNameError<T> {
    pub name: String,
    pub candidates: Vec<T>,
}

pub type SatoriResult<T> = Result<T, SatoriError>;

/// The business operations, each giving a value or one precise error.
/// Contest and problem arguments are queries: prefixes of an id, a name or
/// (for problems) a code. Each operation has a predicate saying which results
/// it may give for its arguments; each implementation defines them.
pub trait Satori {
    /// `r` may be the result of `username`.
    spec fn gives_username(&self, r: SatoriResult<String>) -> bool;

    /// `r` may be the result of `contests(archived, force)`.
    spec fn gives_contests(&self, archived: bool, force: bool, r: SatoriResult<Vec<Contest>>) -> bool;

    /// `r` may be the result of `details(contest, submission, force)`.
    spec fn gives_details(
        &self,
        contest: Seq<char>,
        submission: Seq<char>,
        force: bool,
        r: SatoriResult<ResultDetails>,
    ) -> bool;

    /// `r` may be the result of `login(login, password)`.
    spec fn gives_login(&self, login: Seq<char>, password: Seq<char>, r: SatoriResult<String>) -> bool;

    /// `r` may be the result of `logout`.
    spec fn gives_logout(&self, r: SatoriResult<()>) -> bool;

    /// `r` may be the result of `problems(contest, force)`.
    spec fn gives_problems(&self, contest: Seq<char>, force: bool, r: SatoriResult<Vec<Problem>>) -> bool;

    /// `r` may be the result of `pdf(contest, problem, force)`.
    spec fn gives_pdf(&self, contest: Seq<char>, problem: Seq<char>, force: bool, r: SatoriResult<()>) -> bool;

    /// `r` may be the result of `results(contest, problem, limit, force)`.
    spec fn gives_results(
        &self,
        contest: Seq<char>,
        problem: Option<Seq<char>>,
        limit: Option<usize>,
        force: bool,
        r: SatoriResult<Vec<ShortResult>>,
    ) -> bool;

    /// `r` may be the result of `status(contest, problem, force)`.
    spec fn gives_status(&self, contest: Seq<char>, problem: Seq<char>, force: bool, r: SatoriResult<String>) -> bool;

    /// `r` may be the result of `submit(contest, problem, file_path)`.
    spec fn gives_submit(
        &self,
        contest: Seq<char>,
        problem: Seq<char>,
        file_path: Seq<char>,
        r: SatoriResult<()>,
    ) -> bool;

    /// The logged-in user.
    fn username(&self) -> (r: SatoriResult<String>)
        ensures
            self.gives_username(r),
    ;

    /// The joined contests.
    fn contests(&self, archived: bool, force: bool) -> (r: SatoriResult<Vec<Contest>>)
        ensures
            self.gives_contests(archived, force, r),
    ;

    /// The details of a submission in a contest.
    fn details(&self, contest: &str, submission: &str, force: bool) -> (r: SatoriResult<ResultDetails>)
        ensures
            self.gives_details(contest@, submission@, force, r),
    ;

    /// Logs in and keeps the session; gives the user name.
    fn login(&self, login: &str, password: &str) -> (r: SatoriResult<String>)
        ensures
            self.gives_login(login@, password@, r),
    ;

    /// Forgets the session.
    fn logout(&self) -> (r: SatoriResult<()>)
        ensures
            self.gives_logout(r),
    ;

    /// The problems of a contest.
    fn problems(&self, contest: &str, force: bool) -> (r: SatoriResult<Vec<Problem>>)
        ensures
            self.gives_problems(contest@, force, r),
    ;

    /// Fetches the statement of a problem.
    fn pdf(&self, contest: &str, problem: &str, force: bool) -> (r: SatoriResult<()>)
        ensures
            self.gives_pdf(contest@, problem@, force, r),
    ;

    /// The submissions of a contest, newest first, optionally of one problem
    /// and at most `limit` of them.
    fn results(
        &self,
        contest: &str,
        problem: Option<&str>,
        limit: Option<usize>,
        force: bool,
    ) -> (r: SatoriResult<Vec<ShortResult>>)
        ensures
            self.gives_results(contest@, text_view(problem), limit, force, r),
    ;

    /// The verdict on the newest submission to a problem.
    fn status(&self, contest: &str, problem: &str, force: bool) -> (r: SatoriResult<String>)
        ensures
            self.gives_status(contest@, problem@, force, r),
    ;

    /// Submits the file at `file_path` as a solution to a problem.
    fn submit(&self, contest: &str, problem: &str, file_path: &str) -> (r: SatoriResult<()>)
        ensures
            self.gives_submit(contest@, problem@, file_path@, r),
    ;
}

} // verus!
