//! The interactive layer: re-authenticates when a session has expired and
//! asks the operator to choose when a query is ambiguous, then issues the
//! operation again.

use crate::display::SatoriDisplay;
use crate::prompt::Prompt;
use crate::paths::text_view;
use crate::resolution::{
    after_resolution, at_queries, contest_scope, is_contest_choice, is_problem_choice, issued_by,
    issues_by, lemma_issues_push, lemma_orderly_empty, lemma_orderly_push, orderly, problem_key, resolve_run,
    resolved_by, resolved_call, Queries, ResolutionStep, ResolveEvent, ResolveState,
};
use crate::retry::{
    after_attempt, after_login, finished_call, lemma_run_push, retried_by, retry_run, runs_by,
    AttemptStep, LoginStep, RetryEvent, RetryState,
};
use crate::satori::{
    AmbiguousNameError, Contest, Problem, ResultDetails, Satori, SatoriError, SatoriResult,
    ShortResult,
};
use vstd::prelude::*;
use vstd::string::*;

verus! {

/// The number of credential prompts after which one call gives up, as if
/// the operator had declined.
pub const LOGIN_PROMPT_LIMIT: u64 = 100;

/// The problem query issued, or `problem` when none was.
pub open spec fn query_or(p: Option<Seq<char>>, problem: Seq<char>) -> Seq<char> {
    match p {
        Some(q) => q,
        None => problem,
    }
}

/// The characters of an operator's answer to the credential prompt.
pub open spec fn credentials_view(c: Option<(String, String)>) -> Option<(Seq<char>, Seq<char>)> {
    match c {
        Some((l, p)) => Some((l@, p@)),
        None => None,
    }
}

/// The characters of an optional owned string.
pub open spec fn owned_view(o: Option<String>) -> Option<Seq<char>> {
    match o {
        Some(t) => Some(t@),
        None => None,
    }
}

/// The query that names problem `p` once chosen: its id, or its code when
/// it has no id.
pub fn problem_query_of(p: &Problem) -> (r: String)
    ensures
        r@ == problem_key(*p),
{
    if p.id.as_str().is_empty() {
        p.code.clone()
    } else {
        p.id.clone()
    }
}

/// The query that replaces an ambiguous contest query once the operator
/// answered `choice`: the chosen contest's id, or `InvalidChoice` when the
/// operator declined or chose out of range.
pub fn contest_substitute(error: &AmbiguousNameError<Contest>, choice: Option<usize>) -> (r:
    SatoriResult<String>)
    ensures
        forall|k: usize|
            choice == Some(k) && k < error.candidates@.len() ==> (r matches Ok(q) && q@
                == error.candidates@[k as int].id@),
        (choice is None || choice.unwrap() >= error.candidates@.len()) ==> r matches Err(
            SatoriError::InvalidChoice,
        ),
{
    match choice {
        Some(k) => {
            if k < error.candidates.len() {
                Ok(error.candidates[k].id.clone())
            } else {
                Err(SatoriError::InvalidChoice)
            }
        },
        None => Err(SatoriError::InvalidChoice),
    }
}

/// The contest query that scopes a chosen problem: the id of its contest
/// when it names one, otherwise the current query `contest`.
pub fn contest_scope_of(contest: &str, p: &Problem) -> (r: String)
    ensures
        r@ == contest_scope(contest@, *p),
{
    if p.contest_id.as_str().is_empty() {
        contest.to_string()
    } else {
        p.contest_id.clone()
    }
}

/// The queries that replace the contest query `contest` and an ambiguous
/// problem query once the operator answered `choice`: the chosen problem's
/// contest and key, or `InvalidChoice` when the operator declined or chose
/// out of range.
pub fn problem_substitute(error: &AmbiguousNameError<Problem>, contest: &str, choice: Option<usize>) -> (r:
    SatoriResult<(String, String)>)
    ensures
        forall|k: usize|
            choice == Some(k) && k < error.candidates@.len() ==> (r matches Ok((c, q)) && c@
                == contest_scope(contest@, error.candidates@[k as int]) && q@ == problem_key(
                error.candidates@[k as int],
            )),
        (choice is None || choice.unwrap() >= error.candidates@.len()) ==> r matches Err(
            SatoriError::InvalidChoice,
        ),
{
    match choice {
        Some(k) => {
            if k < error.candidates.len() {
                let p = &error.candidates[k];
                Ok((contest_scope_of(contest, p), problem_query_of(p)))
            } else {
                Err(SatoriError::InvalidChoice)
            }
        },
        None => Err(SatoriError::InvalidChoice),
    }
}

/// The question put to the operator about an ambiguous contest query.
pub open spec fn contest_question(name: Seq<char>) -> Seq<char> {
    "Contest "@ + name + " is ambiguous. Please choose one:"@
}

/// The question put to the operator about an ambiguous problem query.
pub open spec fn problem_question(name: Seq<char>) -> Seq<char> {
    "Problem "@ + name + " is ambiguous. Please choose one:"@
}

/// How a problem is offered to the operator: its code in brackets, then its
/// name.
pub open spec fn problem_label(p: Problem) -> Seq<char> {
    "["@ + p.code@ + "] "@ + p.name@
}

/// Builds the question about the ambiguous contest query `name`.
pub fn contest_question_of(name: &str) -> (r: String)
    ensures
        r@ == contest_question(name@),
{
    let mut message = String::from_str("Contest ");
    message.append(name);
    message.append(" is ambiguous. Please choose one:");
    message
}

/// Builds the question about the ambiguous problem query `name`.
pub fn problem_question_of(name: &str) -> (r: String)
    ensures
        r@ == problem_question(name@),
{
    let mut message = String::from_str("Problem ");
    message.append(name);
    message.append(" is ambiguous. Please choose one:");
    message
}

/// The options offered for ambiguous contests: their names, in order.
pub fn contest_labels(candidates: &Vec<Contest>) -> (r: Vec<String>)
    ensures
        r@.len() == candidates@.len(),
        forall|j: int| 0 <= j < r@.len() ==> #[trigger] r@[j]@ == candidates@[j].name@,
{
    let mut labels: Vec<String> = Vec::new();
    let mut i: usize = 0;
    while i < candidates.len()
        invariant
            i <= candidates@.len(),
            labels@.len() == i,
            forall|j: int| 0 <= j < i ==> #[trigger] labels@[j]@ == candidates@[j].name@,
        decreases candidates@.len() - i,
    {
        labels.push(candidates[i].name.clone());
        i = i + 1;
    }
    labels
}

/// The options offered for ambiguous problems, in order (see
/// `problem_label`).
pub fn problem_labels(candidates: &Vec<Problem>) -> (r: Vec<String>)
    ensures
        r@.len() == candidates@.len(),
        forall|j: int| 0 <= j < r@.len() ==> #[trigger] r@[j]@ == problem_label(candidates@[j]),
{
    let mut labels: Vec<String> = Vec::new();
    let mut i: usize = 0;
    while i < candidates.len()
        invariant
            i <= candidates@.len(),
            labels@.len() == i,
            forall|j: int| 0 <= j < i ==> #[trigger] labels@[j]@ == problem_label(candidates@[j]),
        decreases candidates@.len() - i,
    {
        let candidate = &candidates[i];
        let mut label = String::from_str("[");
        label.append(candidate.code.as_str());
        label.append("] ");
        label.append(candidate.name.as_str());
        labels.push(label);
        i = i + 1;
    }
    labels
}

/// One login round from the operator's answer: nothing when the operator
/// declined, otherwise the result of logging in with exactly the given
/// credentials, once.
pub fn login_round<F: Fn(&String, &String) -> SatoriResult<String>>(
    credentials: Option<(String, String)>,
    login: F,
) -> (r: Option<SatoriResult<String>>)
    requires
        forall|l: &String, p: &String| login.requires((l, p)),
    ensures
        credentials is None <==> r is None,
        forall|l: String, p: String, x: SatoriResult<String>|
            credentials == Some((l, p)) && r == Some(x) ==> call_ensures(login, (&l, &p), x),
{
    match credentials {
        None => None,
        Some((l, p)) => Some(login(&l, &p)),
    }
}

/// The resolver `S` with re-authentication and disambiguation through the
/// prompt `P`, showing each outcome on `D`.
pub struct InteractiveSatori<S: Satori, D: SatoriDisplay, P: Prompt> {
    satori: S,
    display: D,
    prompt: P,
}

impl<S: Satori, D: SatoriDisplay, P: Prompt> InteractiveSatori<S, D, P> {
    pub fn new(satori: S, display: D, prompt: P) -> (r: Self)
        ensures
            r.satori() == satori,
            r.display() == display,
            r.prompt() == prompt,
    {
        Self { satori, display, prompt }
    }

    /// The wrapped resolver.
    pub closed spec fn satori(&self) -> S {
        self.satori
    }

    /// Where outcomes are shown.
    pub closed spec fn display(&self) -> D {
        self.display
    }

    /// Where the operator is asked.
    pub closed spec fn prompt(&self) -> P {
        self.prompt
    }

    /// What a login round may end in: the inner resolver's login result for
    /// some credentials.
    pub open spec fn login_by(&self) -> spec_fn(SatoriResult<String>) -> bool {
        |x: SatoriResult<String>| exists|l: Seq<char>, p: Seq<char>| self.satori().gives_login(l, p, x)
    }

    /// What an attempt of `username` may give.
    pub open spec fn username_attempts(&self) -> spec_fn(SatoriResult<String>) -> bool {
        |y: SatoriResult<String>| self.satori().gives_username(y)
    }

    /// What an attempt of `contests(archived, force)` may give.
    pub open spec fn contests_attempts(&self, archived: bool, force: bool) -> spec_fn(
        SatoriResult<Vec<Contest>>,
    ) -> bool {
        |y: SatoriResult<Vec<Contest>>| self.satori().gives_contests(archived, force, y)
    }

    /// What an attempt of `details` may give for the queries issued.
    pub open spec fn details_attempts(&self, submission: Seq<char>, force: bool) -> spec_fn(
        Seq<char>,
        Option<Seq<char>>,
        SatoriResult<ResultDetails>,
    ) -> bool {
        |c: Seq<char>, p: Option<Seq<char>>, y: SatoriResult<ResultDetails>|
            self.satori().gives_details(c, submission, force, y)
    }

    /// What an attempt of `problems` may give for the queries issued.
    pub open spec fn problems_attempts(&self, force: bool) -> spec_fn(
        Seq<char>,
        Option<Seq<char>>,
        SatoriResult<Vec<Problem>>,
    ) -> bool {
        |c: Seq<char>, p: Option<Seq<char>>, y: SatoriResult<Vec<Problem>>|
            self.satori().gives_problems(c, force, y)
    }

    /// What an attempt of `pdf` may give for the queries issued.
    pub open spec fn pdf_attempts(&self, problem: Seq<char>, force: bool) -> spec_fn(
        Seq<char>,
        Option<Seq<char>>,
        SatoriResult<()>,
    ) -> bool {
        |c: Seq<char>, p: Option<Seq<char>>, y: SatoriResult<()>|
            self.satori().gives_pdf(c, query_or(p, problem), force, y)
    }

    /// What an attempt of `results` may give for the queries issued.
    pub open spec fn results_attempts(&self, limit: Option<usize>, force: bool) -> spec_fn(
        Seq<char>,
        Option<Seq<char>>,
        SatoriResult<Vec<ShortResult>>,
    ) -> bool {
        |c: Seq<char>, p: Option<Seq<char>>, y: SatoriResult<Vec<ShortResult>>|
            self.satori().gives_results(c, p, limit, force, y)
    }

    /// What an attempt of `status` may give for the queries issued.
    pub open spec fn status_attempts(&self, problem: Seq<char>, force: bool) -> spec_fn(
        Seq<char>,
        Option<Seq<char>>,
        SatoriResult<String>,
    ) -> bool {
        |c: Seq<char>, p: Option<Seq<char>>, y: SatoriResult<String>|
            self.satori().gives_status(c, query_or(p, problem), force, y)
    }

    /// What an attempt of `submit` may give for the queries issued.
    pub open spec fn submit_attempts(&self, problem: Seq<char>, file_path: Seq<char>) -> spec_fn(
        Seq<char>,
        Option<Seq<char>>,
        SatoriResult<()>,
    ) -> bool {
        |c: Seq<char>, p: Option<Seq<char>>, y: SatoriResult<()>|
            self.satori().gives_submit(c, query_or(p, problem), file_path, y)
    }

    /// One login round. Gives the operator's answer as a ghost value: no
    /// credentials exactly when the round ends in nothing; otherwise the
    /// round ends in the inner resolver's login result for exactly those
    /// credentials.
    fn log_in(&self) -> (out: (Option<SatoriResult<String>>, Ghost<Option<(Seq<char>, Seq<char>)>>))
        ensures
            out.1@ is None <==> out.0 is None,
            forall|l: Seq<char>, p: Seq<char>, x: SatoriResult<String>|
                out.1@ == Some((l, p)) && out.0 == Some(x) ==> self.satori().gives_login(l, p, x),
    {
        let credentials = self.prompt.ask_for_credentials();
        let ghost answer = credentials_view(credentials);
        if credentials.is_none() {
            self.display.display_error(&SatoriError::LoginFailed);
        }
        let login = |l: &String, p: &String| -> (x: SatoriResult<String>)
            ensures
                self.satori().gives_login(l@, p@, x),
            { self.satori.login(l.as_str(), p.as_str()) };
        let ghost given = credentials;
        let outcome = login_round(credentials, login);
        proof {
            if outcome is Some {
                let (l, p) = given->Some_0;
                assert(call_ensures(login, (&l, &p), outcome->Some_0));
                assert(answer == Some((l@, p@)));
            }
        }
        (outcome, Ghost(answer))
    }

    /// Issues `op` until it returns something other than an expired
    /// session, logging in between attempts. Gives the events that happened
    /// as a ghost value.
    fn repeat_until_logged_in<R, F: Fn() -> SatoriResult<R>>(
        &self,
        op: F,
        Ghost(attempt): Ghost<spec_fn(SatoriResult<R>) -> bool>,
    ) -> (out: (SatoriResult<R>, Ghost<Seq<RetryEvent<R>>>))
        requires
            op.requires(()),
            forall|y: SatoriResult<R>| call_ensures(op, (), y) ==> attempt(y),
        ensures
            !(out.0 matches Err(SatoriError::NotLoggedIn)),
            finished_call(out.1@),
            retry_run(out.1@) == RetryState::Done(out.0),
            runs_by(out.1@, attempt, self.login_by()),
            retried_by(out.0, attempt, self.login_by()),
    {
        let ghost mut events: Seq<RetryEvent<R>> = Seq::empty();
        let mut budget: u64 = LOGIN_PROMPT_LIMIT;
        loop
            invariant
                op.requires(()),
                forall|y: SatoriResult<R>| call_ensures(op, (), y) ==> attempt(y),
                retry_run(events) == RetryState::<R>::Attempting,
                forall|k: int|
                    0 <= k <= events.len() ==> !(#[trigger] retry_run(events.subrange(0, k)) is Done),
                runs_by(events, attempt, self.login_by()),
            decreases budget,
        {
            let result = op();
            proof {
                lemma_run_push(events, RetryEvent::Attempted(result));
                events = events.push(RetryEvent::Attempted(result));
            }
            match after_attempt(result) {
                AttemptStep::Finish(r) => {
                    assert(finished_call(events));
                    return (r, Ghost(events));
                },
                AttemptStep::Reauthenticate => {
                    let ghost start = budget;
                    loop
                        invariant_except_break
                            retry_run(events) == RetryState::<R>::AwaitingLogin,
                        invariant
                            op.requires(()),
                            forall|y: SatoriResult<R>| call_ensures(op, (), y) ==> attempt(y),
                            budget <= start,
                            forall|k: int|
                                0 <= k <= events.len() ==> !(#[trigger] retry_run(
                                    events.subrange(0, k),
                                ) is Done),
                            runs_by(events, attempt, self.login_by()),
                        ensures
                            budget < start,
                            retry_run(events) == RetryState::<R>::Attempting,
                        decreases budget,
                    {
                        let ghost before = budget;
                        let outcome = if budget == 0 {
                            None
                        } else {
                            budget = budget - 1;
                            let round = self.log_in();
                            let o = round.0;
                            proof {
                                if o is Some {
                                    let x = o->Some_0;
                                    let (l, p) = round.1@->Some_0;
                                    assert(self.satori().gives_login(l, p, x));
                                    assert((self.login_by())(x));
                                }
                            }
                            o
                        };
                        proof {
                            lemma_run_push(events, RetryEvent::LoggedIn(outcome));
                            events = events.push(RetryEvent::LoggedIn(outcome));
                        }
                        match after_login(outcome) {
                            LoginStep::Reissue => {
                                break ;
                            },
                            LoginStep::PromptAgain => {
                                self.display.display_error(&SatoriError::LoginFailed);
                            },
                            LoginStep::Abort(e) => {
                                assert(finished_call(events));
                                return (Err(e), Ghost(events));
                            },
                        }
                    }
                },
            }
        }
    }

    /// Asks the operator to choose among the contests of `error` and gives
    /// the query that names the chosen one.
    fn disambiguate_contest(&self, error: &AmbiguousNameError<Contest>) -> (r: SatoriResult<String>)
        ensures
            r matches Ok(q) ==> is_contest_choice(*error, q@),
            r matches Err(e) ==> e is InvalidChoice,
    {
        let message = contest_question_of(error.name.as_str());
        let labels = contest_labels(&error.candidates);
        let choice = self.prompt.choose_option(message.as_str(), &labels);
        let r = contest_substitute(error, choice);
        proof {
            if let Some(k) = choice {
                if k < error.candidates@.len() {
                    assert(r->Ok_0@ == error.candidates@[k as int].id@);
                }
            }
        }
        r
    }

    /// Asks the operator to choose among the problems of `error`, found
    /// while the contest query was `contest`, and gives the contest query and
    /// problem query that name the chosen one.
    fn disambiguate_problem(&self, error: &AmbiguousNameError<Problem>, contest: &str) -> (r:
        SatoriResult<(String, String)>)
        ensures
            r matches Ok((c, q)) ==> is_problem_choice(*error, contest@, c@, q@),
            r matches Err(e) ==> e is InvalidChoice,
    {
        let message = problem_question_of(error.name.as_str());
        let labels = problem_labels(&error.candidates);
        let choice = self.prompt.choose_option(message.as_str(), &labels);
        let r = problem_substitute(error, contest, choice);
        proof {
            if let Some(k) = choice {
                if k < error.candidates@.len() {
                    assert(r->Ok_0.1@ == problem_key(error.candidates@[k as int]));
                }
            }
        }
        r
    }

    /// Issues `op` on the contest and problem queries with re-authentication;
    /// an ambiguous query is settled by the operator's choice, once per
    /// query, and the operation is issued again with the chosen entity's
    /// identifier in its place.
    fn resolve_interactively<R, F: Fn(&str, Option<&str>) -> SatoriResult<R>>(
        &self,
        contest: &str,
        problem: Option<&str>,
        op: F,
        Ghost(attempt): Ghost<spec_fn(Seq<char>, Option<Seq<char>>, SatoriResult<R>) -> bool>,
    ) -> (out: (SatoriResult<R>, Ghost<Seq<ResolveEvent<R>>>))
        requires
            forall|c: &str, p: Option<&str>| op.requires((c, p)),
            forall|c: &str, p: Option<&str>, x: SatoriResult<R>|
                call_ensures(op, (c, p), x) ==> issued_by(c@, text_view(p), x, attempt, self.login_by()),
        ensures
            !(out.0 matches Err(SatoriError::NotLoggedIn)),
            resolved_call(contest@, text_view(problem), out.1@),
            resolve_run(contest@, text_view(problem), out.1@) == ResolveState::Done(out.0),
            issues_by(out.1@, attempt, self.login_by()),
            resolved_by(contest@, text_view(problem), out.0, attempt, self.login_by()),
    {
        let ghost c0 = contest@;
        let ghost p0 = text_view(problem);
        let ghost mut events: Seq<ResolveEvent<R>> = Seq::empty();
        proof {
            lemma_orderly_empty::<R>(c0, p0);
        }
        let mut contest_query = contest.to_string();
        let mut problem_query: Option<String> = match problem {
            Some(p) => Some(p.to_string()),
            None => None,
        };
        let mut contest_open = true;
        let mut problem_open = true;
        loop
            invariant
                forall|c: &str, p: Option<&str>| op.requires((c, p)),
                resolve_run(c0, p0, events) == ResolveState::<R>::Issuing(
                    Queries {
                        contest: contest_query@,
                        problem: owned_view(problem_query),
                        contest_open,
                        problem_open,
                    },
                ),
                forall|c: &str, p: Option<&str>, x: SatoriResult<R>|
                    call_ensures(op, (c, p), x) ==> issued_by(c@, text_view(p), x, attempt, self.login_by()),
                issues_by(events, attempt, self.login_by()),
                c0 == contest@,
                p0 == text_view(problem),
                orderly(c0, p0, events),
            decreases (contest_open as int) + (problem_open as int),
        {
            let c = contest_query.as_str();
            let p = match &problem_query {
                Some(q) => Some(q.as_str()),
                None => None,
            };
            let result = op(c, p);
            let ghost issued = ResolveEvent::Issued(contest_query@, owned_view(problem_query), result);
            proof {
                assert(text_view(p) == owned_view(problem_query));
                assert(issued_by(c@, text_view(p), result, attempt, self.login_by()));
                lemma_issues_push(events, issued, attempt, self.login_by());
                lemma_orderly_push(c0, p0, events, issued);
                events = events.push(issued);
            }
            match after_resolution(result, contest_open, problem_open) {
                ResolutionStep::Finish(r) => {
                    assert(resolved_call(c0, p0, events));
                    assert(resolve_run(c0, p0, events) == ResolveState::<R>::Done(r));
                    return (r, Ghost(events));
                },
                ResolutionStep::ChooseContest(e) => {
                    match self.disambiguate_contest(&e) {
                        Ok(q) => {
                            proof {
                                lemma_issues_push(events, ResolveEvent::Chose(Some(q@)), attempt, self.login_by());
                                lemma_orderly_push(c0, p0, events, ResolveEvent::Chose(Some(q@)));
                                events = events.push(ResolveEvent::Chose(Some(q@)));
                            }
                            contest_query = q;
                            contest_open = false;
                        },
                        Err(_) => {
                            proof {
                                lemma_issues_push(events, ResolveEvent::Chose(None), attempt, self.login_by());
                                lemma_orderly_push(c0, p0, events, ResolveEvent::Chose(None));
                                events = events.push(ResolveEvent::Chose(None));
                            }
                            assert(resolved_call(c0, p0, events));
                            assert(resolve_run(c0, p0, events) == ResolveState::<R>::Done(
                                Err(SatoriError::InvalidChoice),
                            ));
                            return (Err(SatoriError::InvalidChoice), Ghost(events));
                        },
                    }
                },
                ResolutionStep::ChooseProblem(e) => {
                    match self.disambiguate_problem(&e, contest_query.as_str()) {
                        Ok((c, q)) => {
                            proof {
                                lemma_issues_push(
                                    events,
                                    ResolveEvent::ChoseProblem(Some((c@, q@))),
                                    attempt,
                                    self.login_by(),
                                );
                                lemma_orderly_push(
                                    c0,
                                    p0,
                                    events,
                                    ResolveEvent::ChoseProblem(Some((c@, q@))),
                                );
                                events = events.push(ResolveEvent::ChoseProblem(Some((c@, q@))));
                            }
                            contest_query = c;
                            problem_query = Some(q);
                            problem_open = false;
                        },
                        Err(_) => {
                            proof {
                                lemma_issues_push(events, ResolveEvent::ChoseProblem(None), attempt, self.login_by());
                                lemma_orderly_push(c0, p0, events, ResolveEvent::ChoseProblem(None));
                                events = events.push(ResolveEvent::ChoseProblem(None));
                            }
                            assert(resolved_call(c0, p0, events));
                            assert(resolve_run(c0, p0, events) == ResolveState::<R>::Done(
                                Err(SatoriError::InvalidChoice),
                            ));
                            return (Err(SatoriError::InvalidChoice), Ghost(events));
                        },
                    }
                },
            }
        }
    }
}

impl<S: Satori, D: SatoriDisplay, P: Prompt> Satori for InteractiveSatori<S, D, P> {
    open spec fn gives_username(&self, r: SatoriResult<String>) -> bool {
        !(r matches Err(SatoriError::NotLoggedIn)) && retried_by(
            r,
            self.username_attempts(),
            self.login_by(),
        )
    }

    open spec fn gives_contests(&self, archived: bool, force: bool, r: SatoriResult<Vec<Contest>>) -> bool {
        !(r matches Err(SatoriError::NotLoggedIn)) && retried_by(
            r,
            self.contests_attempts(archived, force),
            self.login_by(),
        )
    }

    open spec fn gives_details(
        &self,
        contest: Seq<char>,
        submission: Seq<char>,
        force: bool,
        r: SatoriResult<ResultDetails>,
    ) -> bool {
        !(r matches Err(SatoriError::NotLoggedIn)) && resolved_by(
            contest,
            None,
            r,
            self.details_attempts(submission, force),
            self.login_by(),
        )
    }

    open spec fn gives_login(&self, login: Seq<char>, password: Seq<char>, r: SatoriResult<String>) -> bool {
        self.satori().gives_login(login, password, r)
    }

    open spec fn gives_logout(&self, r: SatoriResult<()>) -> bool {
        self.satori().gives_logout(r)
    }

    open spec fn gives_problems(&self, contest: Seq<char>, force: bool, r: SatoriResult<Vec<Problem>>) -> bool {
        !(r matches Err(SatoriError::NotLoggedIn)) && resolved_by(
            contest,
            None,
            r,
            self.problems_attempts(force),
            self.login_by(),
        )
    }

    open spec fn gives_pdf(&self, contest: Seq<char>, problem: Seq<char>, force: bool, r: SatoriResult<()>) -> bool {
        !(r matches Err(SatoriError::NotLoggedIn)) && resolved_by(
            contest,
            Some(problem),
            r,
            self.pdf_attempts(problem, force),
            self.login_by(),
        )
    }

    open spec fn gives_results(
        &self,
        contest: Seq<char>,
        problem: Option<Seq<char>>,
        limit: Option<usize>,
        force: bool,
        r: SatoriResult<Vec<ShortResult>>,
    ) -> bool {
        !(r matches Err(SatoriError::NotLoggedIn)) && resolved_by(
            contest,
            problem,
            r,
            self.results_attempts(limit, force),
            self.login_by(),
        )
    }

    open spec fn gives_status(&self, contest: Seq<char>, problem: Seq<char>, force: bool, r: SatoriResult<String>) -> bool {
        !(r matches Err(SatoriError::NotLoggedIn)) && resolved_by(
            contest,
            Some(problem),
            r,
            self.status_attempts(problem, force),
            self.login_by(),
        )
    }

    open spec fn gives_submit(
        &self,
        contest: Seq<char>,
        problem: Seq<char>,
        file_path: Seq<char>,
        r: SatoriResult<()>,
    ) -> bool {
        !(r matches Err(SatoriError::NotLoggedIn)) && resolved_by(
            contest,
            Some(problem),
            r,
            self.submit_attempts(problem, file_path),
            self.login_by(),
        )
    }

    fn username(&self) -> SatoriResult<String> {
        let attempt = || -> (y: SatoriResult<String>)
            ensures
                self.satori().gives_username(y),
            { self.satori.username() };
        let username = self.repeat_until_logged_in(attempt, Ghost(self.username_attempts())).0;
        self.display.display_username(&username);
        username
    }

    fn contests(&self, archived: bool, force: bool) -> SatoriResult<Vec<Contest>> {
        let attempt = || -> (y: SatoriResult<Vec<Contest>>)
            ensures
                self.satori().gives_contests(archived, force, y),
            { self.satori.contests(archived, force) };
        let contests = self.repeat_until_logged_in(
            attempt,
            Ghost(self.contests_attempts(archived, force)),
        ).0;
        self.display.display_contests(&contests);
        contests
    }

    fn details(&self, contest: &str, submission: &str, force: bool) -> SatoriResult<ResultDetails> {
        let issue = |c: &str, p: Option<&str>| -> (x: SatoriResult<ResultDetails>)
            ensures
                issued_by(c@, text_view(p), x, self.details_attempts(submission@, force), self.login_by()),
            {
                let attempt = || -> (y: SatoriResult<ResultDetails>)
                    ensures
                        self.satori().gives_details(c@, submission@, force, y),
                    { self.satori.details(c, submission, force) };
                self.repeat_until_logged_in(
                    attempt,
                    Ghost(at_queries(self.details_attempts(submission@, force), c@, text_view(p))),
                ).0
            };
        let details = self.resolve_interactively(
            contest,
            None,
            issue,
            Ghost(self.details_attempts(submission@, force)),
        ).0;
        self.display.display_details(&details);
        details
    }

    fn login(&self, login: &str, password: &str) -> SatoriResult<String> {
        let result = self.satori.login(login, password);
        self.display.display_login(&result);
        result
    }

    fn logout(&self) -> SatoriResult<()> {
        let result = self.satori.logout();
        self.display.display_logout(&result);
        result
    }

    fn problems(&self, contest: &str, force: bool) -> SatoriResult<Vec<Problem>> {
        let issue = |c: &str, p: Option<&str>| -> (x: SatoriResult<Vec<Problem>>)
            ensures
                issued_by(c@, text_view(p), x, self.problems_attempts(force), self.login_by()),
            {
                let attempt = || -> (y: SatoriResult<Vec<Problem>>)
                    ensures
                        self.satori().gives_problems(c@, force, y),
                    { self.satori.problems(c, force) };
                self.repeat_until_logged_in(
                    attempt,
                    Ghost(at_queries(self.problems_attempts(force), c@, text_view(p))),
                ).0
            };
        let problems = self.resolve_interactively(
            contest,
            None,
            issue,
            Ghost(self.problems_attempts(force)),
        ).0;
        self.display.display_problems(&problems);
        problems
    }

    fn pdf(&self, contest: &str, problem: &str, force: bool) -> SatoriResult<()> {
        let issue = |c: &str, p: Option<&str>| -> (x: SatoriResult<()>)
            ensures
                issued_by(c@, text_view(p), x, self.pdf_attempts(problem@, force), self.login_by()),
            {
                let q = p.unwrap_or(problem);
                let attempt = || -> (y: SatoriResult<()>)
                    ensures
                        self.satori().gives_pdf(c@, q@, force, y),
                    { self.satori.pdf(c, q, force) };
                self.repeat_until_logged_in(
                    attempt,
                    Ghost(at_queries(self.pdf_attempts(problem@, force), c@, text_view(p))),
                ).0
            };
        let pdf = self.resolve_interactively(
            contest,
            Some(problem),
            issue,
            Ghost(self.pdf_attempts(problem@, force)),
        ).0;
        self.display.display_pdf(&pdf);
        pdf
    }

    fn results(
        &self,
        contest: &str,
        problem: Option<&str>,
        limit: Option<usize>,
        force: bool,
    ) -> SatoriResult<Vec<ShortResult>> {
        let issue = |c: &str, p: Option<&str>| -> (x: SatoriResult<Vec<ShortResult>>)
            ensures
                issued_by(c@, text_view(p), x, self.results_attempts(limit, force), self.login_by()),
            {
                let attempt = || -> (y: SatoriResult<Vec<ShortResult>>)
                    ensures
                        self.satori().gives_results(c@, text_view(p), limit, force, y),
                    { self.satori.results(c, p, limit, force) };
                self.repeat_until_logged_in(
                    attempt,
                    Ghost(at_queries(self.results_attempts(limit, force), c@, text_view(p))),
                ).0
            };
        let results = self.resolve_interactively(
            contest,
            problem,
            issue,
            Ghost(self.results_attempts(limit, force)),
        ).0;
        self.display.display_results(&results);
        results
    }

    fn status(&self, contest: &str, problem: &str, force: bool) -> SatoriResult<String> {
        let issue = |c: &str, p: Option<&str>| -> (x: SatoriResult<String>)
            ensures
                issued_by(c@, text_view(p), x, self.status_attempts(problem@, force), self.login_by()),
            {
                let q = p.unwrap_or(problem);
                let attempt = || -> (y: SatoriResult<String>)
                    ensures
                        self.satori().gives_status(c@, q@, force, y),
                    { self.satori.status(c, q, force) };
                self.repeat_until_logged_in(
                    attempt,
                    Ghost(at_queries(self.status_attempts(problem@, force), c@, text_view(p))),
                ).0
            };
        let status = self.resolve_interactively(
            contest,
            Some(problem),
            issue,
            Ghost(self.status_attempts(problem@, force)),
        ).0;
        self.display.display_status(&status);
        status
    }

    fn submit(&self, contest: &str, problem: &str, file_path: &str) -> SatoriResult<()> {
        let issue = |c: &str, p: Option<&str>| -> (x: SatoriResult<()>)
            ensures
                issued_by(c@, text_view(p), x, self.submit_attempts(problem@, file_path@), self.login_by()),
            {
                let q = p.unwrap_or(problem);
                let attempt = || -> (y: SatoriResult<()>)
                    ensures
                        self.satori().gives_submit(c@, q@, file_path@, y),
                    { self.satori.submit(c, q, file_path) };
                self.repeat_until_logged_in(
                    attempt,
                    Ghost(at_queries(self.submit_attempts(problem@, file_path@), c@, text_view(p))),
                ).0
            };
        let submit = self.resolve_interactively(
            contest,
            Some(problem),
            issue,
            Ghost(self.submit_attempts(problem@, file_path@)),
        ).0;
        self.display.display_submit(&submit);
        submit
    }
}

} // verus!
