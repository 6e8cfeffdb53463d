//! The session resolver: reuses the stored token, detects expired sessions,
//! fetches and parses pages, and resolves contest and problem queries.

use crate::parser::SatoriParser;
use crate::paths::{details_path_of, problems_path_of, results_path_of};
use crate::resolve::{
    contest_ambiguity_fits, contest_matches, problem_ambiguity_fits, problem_matches,
    resolve_contest, resolve_problem, resolves_contest, resolves_problem,
};
use crate::satori::{
    Contest, Problem, ResultDetails, Satori, SatoriError, SatoriResult, ShortResult,
};
use crate::satori_client::SatoriClient;
use crate::token_storage::TokenStorage;
use vstd::prelude::*;

verus! {

/// The page, when the platform recognised a user on it; otherwise the
/// session has expired.
pub fn page_if_logged_in(page: String, username: Option<String>) -> (r: SatoriResult<String>)
    ensures
        username is Some ==> r == Ok::<String, SatoriError>(page),
        username is None ==> r matches Err(SatoriError::NotLoggedIn),
{
    match username {
        Some(_) => Ok(page),
        None => Err(SatoriError::NotLoggedIn),
    }
}

/// The outcome of fetching a page with a session: `ConnectionFailed` when
/// nothing came back, the page when the platform recognised a user on it,
/// and `NotLoggedIn` when it did not. The absence of a user is the only
/// sign of an expired session.
pub fn fetch_outcome(page: Option<String>, username: Option<String>) -> (r: SatoriResult<String>)
    ensures
        page is None ==> r matches Err(SatoriError::ConnectionFailed),
        page matches Some(b) ==> (username is Some ==> r == Ok::<String, SatoriError>(b)),
        page is Some ==> (username is None ==> r matches Err(SatoriError::NotLoggedIn)),
{
    match page {
        None => Err(SatoriError::ConnectionFailed),
        Some(b) => page_if_logged_in(b, username),
    }
}

/// The token a login keeps: the transport's token, once the credentials
/// were posted; nothing when the post failed or no token came back.
pub fn posted_token(post: Option<String>, token: Option<String>) -> (r: Option<String>)
    ensures
        post is None ==> r is None,
        post is Some ==> r == token,
{
    match post {
        None => None,
        Some(_) => token,
    }
}

/// A parsed value, or `ParsingFailed` when the page lacked its structure.
pub fn parsed<T>(value: Option<T>) -> (r: SatoriResult<T>)
    ensures
        value matches Some(v) ==> r == Ok::<T, SatoriError>(v),
        value is None ==> r matches Err(SatoriError::ParsingFailed),
{
    match value {
        Some(v) => Ok(v),
        None => Err(SatoriError::ParsingFailed),
    }
}

/// The outcome of a login from the check that follows it: a page without a
/// user after the credentials were posted means that they were refused.
pub fn login_confirmed(check: SatoriResult<String>) -> (r: SatoriResult<String>)
    ensures
        check matches Err(SatoriError::NotLoggedIn) ==> r matches Err(SatoriError::LoginFailed),
        !(check matches Err(SatoriError::NotLoggedIn)) ==> r == check,
{
    match check {
        Err(SatoriError::NotLoggedIn) => Err(SatoriError::LoginFailed),
        other => other,
    }
}

/// The status of the newest submission in a result list, which the platform
/// shows first.
pub fn latest_status(results: Vec<ShortResult>) -> (r: SatoriResult<String>)
    ensures
        results@.len() == 0 ==> r matches Err(SatoriError::SubmissionNotFound),
        results@.len() > 0 ==> r == Ok::<String, SatoriError>(results@[0].status),
{
    let mut results = results;
    if results.len() == 0 {
        Err(SatoriError::SubmissionNotFound)
    } else {
        let first = results.remove(0);
        Ok(first.status)
    }
}

/// `r` is a resolved entity or a failure of resolution itself, rather than
/// a failure to fetch or parse the page listing the candidates.
pub open spec fn is_resolution_result<T>(r: SatoriResult<T>) -> bool {
    match r {
        Ok(_) => true,
        Err(e) => e is ContestNotFound || e is AmbiguousContest || e is ProblemNotFound
            || e is AmbiguousProblem,
    }
}

/// Whether `e` is one of the failures of fetching a page with a session.
pub open spec fn is_fetch_error(e: SatoriError) -> bool {
    e is ConnectionFailed || e is NotLoggedIn
}

/// Whether `e` is one of the failures of fetching and parsing a page.
pub open spec fn is_page_error(e: SatoriError) -> bool {
    is_fetch_error(e) || e is ParsingFailed
}

/// Whether `e` is one of the failures of resolving a contest query.
pub open spec fn is_contest_error(e: SatoriError) -> bool {
    is_page_error(e) || e is ContestNotFound || e is AmbiguousContest
}

/// Whether `e` is one of the failures of resolving a problem query.
pub open spec fn is_problem_error(e: SatoriError) -> bool {
    is_contest_error(e) || e is ProblemNotFound || e is AmbiguousProblem
}

/// The resolver over a transport, a page parser and a token store.
pub struct SimpleSatori<Client: SatoriClient, Parser: SatoriParser, T: TokenStorage> {
    client: Client,
    parser: Parser,
    token_storage: T,
}

impl<Client: SatoriClient, Parser: SatoriParser, T: TokenStorage> SimpleSatori<Client, Parser, T> {
    pub fn new(client: Client, parser: Parser, token_storage: T) -> (r: Self)
        ensures
            r.client() == client,
            r.parser() == parser,
            r.token_storage() == token_storage,
    {
        Self { client, parser, token_storage }
    }

    /// The transport.
    pub closed spec fn client(&self) -> Client {
        self.client
    }

    /// The page parser.
    pub closed spec fn parser(&self) -> Parser {
        self.parser
    }

    /// The token store.
    pub closed spec fn token_storage(&self) -> T {
        self.token_storage
    }

    /// Posts the credentials and stores the token that the transport then
    /// holds, which it returns. `None` when the post failed or no token came
    /// back; the token is asked for only after a successful post.
    fn log_in(&self, login: &str, password: &str) -> Option<String> {
        let data = [("login", login), ("password", password)];
        let post = self.client.post("/login", &data);
        let token = match post {
            Some(_) => self.client.get_token(),
            None => None,
        };
        let kept = posted_token(post, token);
        match &kept {
            Some(t) => self.token_storage.save_token(t.as_str()),
            None => {},
        }
        kept
    }

    /// Fetches `path` with the stored session, if any. Fails with
    /// `ConnectionFailed` when nothing came back and with `NotLoggedIn` when
    /// the page shows no user.
    fn get_and_ensure_logged_in(&self, path: &str) -> (r: SatoriResult<String>)
        ensures
            r matches Err(e) ==> is_fetch_error(e),
    {
        match self.token_storage.load_token() {
            Some(token) => self.client.set_token(token.as_str()),
            None => {},
        }
        let page = self.client.get(path);
        let username = match &page {
            Some(body) => self.parser.find_username(body.as_str()),
            None => None,
        };
        fetch_outcome(page, username)
    }

    /// The user that the page at `path` shows.
    fn username_at(&self, path: &str) -> (r: SatoriResult<String>)
        ensures
            r matches Err(e) ==> is_page_error(e),
    {
        let page = self.get_and_ensure_logged_in(path)?;
        parsed(self.parser.find_username(page.as_str()))
    }

    /// The joined contests, as the contest list shows them.
    fn joined_contests(&self) -> (r: SatoriResult<Vec<Contest>>)
        ensures
            r matches Err(e) ==> is_page_error(e),
    {
        let page = self.get_and_ensure_logged_in("/contest/select")?;
        parsed(self.parser.find_joined_contests(page.as_str()))
    }

    /// Resolves a contest query against the joined contests.
    fn contest(&self, contest: &str, force: bool) -> (r: SatoriResult<Contest>)
        ensures
            r matches Ok(c) ==> contest_matches(c, contest@),
            r matches Err(e) ==> is_contest_error(e) && contest_ambiguity_fits(e, contest@),
            is_resolution_result(r) ==> exists|cs: Seq<Contest>| resolves_contest(cs, contest@, r),
    {
        let contests = self.joined_contests()?;
        let ghost cs = contests@;
        let r = resolve_contest(contests, contest);
        assert(resolves_contest(cs, contest@, r));
        r
    }

    /// The problems of contest `c`.
    fn problems_of(&self, c: &Contest) -> (r: SatoriResult<Vec<Problem>>)
        ensures
            r matches Err(e) ==> is_page_error(e),
    {
        let path = problems_path_of(c.id.as_str());
        let page = self.get_and_ensure_logged_in(path.as_str())?;
        parsed(self.parser.find_problems(page.as_str()))
    }

    /// The problems of the contest that `contest` resolves to.
    fn contest_problems(&self, contest: &str, force: bool) -> (r: SatoriResult<Vec<Problem>>)
        ensures
            r matches Err(e) ==> is_contest_error(e) && contest_ambiguity_fits(e, contest@),
    {
        let c = self.contest(contest, force)?;
        self.problems_of(&c)
    }

    /// Resolves a problem query among the problems of contest `c`.
    fn problem_in(&self, c: &Contest, problem: &str) -> (r: SatoriResult<Problem>)
        ensures
            r matches Ok(p) ==> problem_matches(p, problem@),
            r matches Err(e) ==> (is_page_error(e) || e is ProblemNotFound || e is AmbiguousProblem)
                && problem_ambiguity_fits(e, problem@),
            is_resolution_result(r) ==> exists|ps: Seq<Problem>| resolves_problem(ps, problem@, r),
    {
        let problems = self.problems_of(c)?;
        let ghost ps = problems@;
        let r = resolve_problem(problems, problem);
        assert(resolves_problem(ps, problem@, r));
        r
    }

    /// Resolves a problem query among the problems of the contest that
    /// `contest` resolves to.
    fn problem(&self, contest: &str, problem: &str, force: bool) -> (r: SatoriResult<Problem>)
        ensures
            r matches Ok(p) ==> problem_matches(p, problem@),
            r matches Err(e) ==> is_problem_error(e) && contest_ambiguity_fits(e, contest@)
                && problem_ambiguity_fits(e, problem@),
            is_resolution_result(r) && !(r matches Err(SatoriError::ContestNotFound))
                && !(r matches Err(SatoriError::AmbiguousContest(_))) ==> exists|ps: Seq<Problem>|
                resolves_problem(ps, problem@, r),
    {
        let c = self.contest(contest, force)?;
        self.problem_in(&c, problem)
    }

    /// The result list of the contest that `contest` resolves to, filtered as
    /// asked.
    fn contest_results(
        &self,
        contest: &str,
        problem: Option<&str>,
        limit: Option<usize>,
        force: bool,
    ) -> (r: SatoriResult<Vec<ShortResult>>)
        ensures
            r matches Err(e) ==> is_problem_error(e) && contest_ambiguity_fits(e, contest@),
            r matches Err(e) ==> (problem matches Some(q) ==> problem_ambiguity_fits(e, q@)),
            r matches Err(e) ==> (problem is None ==> is_contest_error(e)),
    {
        let c = self.contest(contest, force)?;
        let path = match problem {
            Some(query) => {
                let p = self.problem_in(&c, query)?;
                results_path_of(c.id.as_str(), limit, Some(p.id.as_str()))
            },
            None => results_path_of(c.id.as_str(), limit, None),
        };
        let page = self.get_and_ensure_logged_in(path.as_str())?;
        parsed(self.parser.find_results(page.as_str()))
    }
}

impl<Client: SatoriClient, Parser: SatoriParser, T: TokenStorage> Satori for SimpleSatori<
    Client,
    Parser,
    T,
> {
    open spec fn gives_username(&self, r: SatoriResult<String>) -> bool {
        r matches Err(e) ==> is_page_error(e)
    }

    open spec fn gives_contests(&self, archived: bool, force: bool, r: SatoriResult<Vec<Contest>>) -> bool {
        r matches Err(e) ==> is_page_error(e)
    }

    open spec fn gives_details(
        &self,
        contest: Seq<char>,
        submission: Seq<char>,
        force: bool,
        r: SatoriResult<ResultDetails>,
    ) -> bool {
        r matches Err(e) ==> is_contest_error(e) && contest_ambiguity_fits(e, contest)
    }

    open spec fn gives_login(&self, login: Seq<char>, password: Seq<char>, r: SatoriResult<String>) -> bool {
        r matches Err(e) ==> e is LoginFailed || e is ConnectionFailed || e is ParsingFailed
    }

    open spec fn gives_logout(&self, r: SatoriResult<()>) -> bool {
        r is Ok
    }

    open spec fn gives_problems(&self, contest: Seq<char>, force: bool, r: SatoriResult<Vec<Problem>>) -> bool {
        r matches Err(e) ==> is_contest_error(e) && contest_ambiguity_fits(e, contest)
    }

    open spec fn gives_pdf(&self, contest: Seq<char>, problem: Seq<char>, force: bool, r: SatoriResult<()>) -> bool {
        r matches Err(e) ==> is_problem_error(e) && contest_ambiguity_fits(e, contest)
            && problem_ambiguity_fits(e, problem)
    }

    open spec fn gives_results(
        &self,
        contest: Seq<char>,
        problem: Option<Seq<char>>,
        limit: Option<usize>,
        force: bool,
        r: SatoriResult<Vec<ShortResult>>,
    ) -> bool {
        r matches Err(e) ==> is_problem_error(e) && contest_ambiguity_fits(e, contest) && (
        problem matches Some(q) ==> problem_ambiguity_fits(e, q)) && (problem is None
            ==> is_contest_error(e))
    }

    open spec fn gives_status(&self, contest: Seq<char>, problem: Seq<char>, force: bool, r: SatoriResult<String>) -> bool {
        r matches Err(e) ==> (is_problem_error(e) || e is SubmissionNotFound) && contest_ambiguity_fits(
            e,
            contest,
        ) && problem_ambiguity_fits(e, problem)
    }

    open spec fn gives_submit(
        &self,
        contest: Seq<char>,
        problem: Seq<char>,
        file_path: Seq<char>,
        r: SatoriResult<()>,
    ) -> bool {
        r matches Err(e) ==> is_problem_error(e) && contest_ambiguity_fits(e, contest)
            && problem_ambiguity_fits(e, problem)
    }

    fn username(&self) -> SatoriResult<String> {
        self.username_at("")
    }

    fn contests(&self, archived: bool, force: bool) -> SatoriResult<Vec<Contest>> {
        self.joined_contests()
    }

    fn details(&self, contest: &str, submission: &str, force: bool) -> SatoriResult<ResultDetails> {
        let c = self.contest(contest, false)?;
        let path = details_path_of(c.id.as_str(), submission);
        let page = self.get_and_ensure_logged_in(path.as_str())?;
        parsed(self.parser.find_details(page.as_str()))
    }

    fn login(&self, login: &str, password: &str) -> SatoriResult<String> {
        match self.log_in(login, password) {
            None => Err(SatoriError::LoginFailed),
            Some(_) => login_confirmed(self.username_at("")),
        }
    }

    fn logout(&self) -> SatoriResult<()> {
        self.token_storage.clear_token();
        Ok(())
    }

    fn problems(&self, contest: &str, force: bool) -> SatoriResult<Vec<Problem>> {
        self.contest_problems(contest, force)
    }

    fn pdf(&self, contest: &str, problem: &str, force: bool) -> SatoriResult<()> {
        let p = self.problem(contest, problem, force)?;
        match self.client.get(p.pdf_url.as_str()) {
            None => Err(SatoriError::ConnectionFailed),
            Some(_) => Ok(()),
        }
    }

    fn results(
        &self,
        contest: &str,
        problem: Option<&str>,
        limit: Option<usize>,
        force: bool,
    ) -> SatoriResult<Vec<ShortResult>> {
        self.contest_results(contest, problem, limit, force)
    }

    fn status(&self, contest: &str, problem: &str, force: bool) -> SatoriResult<String> {
        let results = self.contest_results(contest, Some(problem), Some(1), force)?;
        latest_status(results)
    }

    fn submit(&self, contest: &str, problem: &str, file_path: &str) -> SatoriResult<()> {
        let p = self.problem(contest, problem, false)?;
        match self.client.submit_file(p.submit_url.as_str(), "codefile", file_path) {
            None => Err(SatoriError::ConnectionFailed),
            Some(_) => Ok(()),
        }
    }
}

} // verus!
