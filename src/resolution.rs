//! The disambiguation protocol as a state machine. An operation is issued
//! with a contest query and an optional problem query; an ambiguous query
//! leads to a choice by the operator, after which the operation is issued
//! again with the chosen entity's identifier in place of that query. Each
//! query is settled this way at most once.

use crate::retry::retried_by;
use crate::satori::{AmbiguousNameError, Contest, Problem, SatoriError, SatoriResult};
use vstd::prelude::*;

verus! {

/// What follows an issued operation.
pub enum ResolutionStep<R> {
    /// The result is the caller's.
    Finish(SatoriResult<R>),
    /// Ask the operator to choose among these contests.
    ChooseContest(AmbiguousNameError<Contest>),
    /// Ask the operator to choose among these problems.
    ChooseProblem(AmbiguousNameError<Problem>),
}

/// The step after an issued operation returned `r`, where `contest_open`
/// and `problem_open` say which queries may still be settled by a choice.
pub open spec fn resolution_step<R>(r: SatoriResult<R>, contest_open: bool, problem_open: bool) -> ResolutionStep<R> {
    match r {
        Err(SatoriError::AmbiguousContest(a)) => if contest_open {
            ResolutionStep::ChooseContest(a)
        } else {
            ResolutionStep::Finish(r)
        },
        Err(SatoriError::AmbiguousProblem(a)) => if problem_open {
            ResolutionStep::ChooseProblem(a)
        } else {
            ResolutionStep::Finish(r)
        },
        _ => ResolutionStep::Finish(r),
    }
}

/// Decides what follows an issued operation that returned `r`.
pub fn after_resolution<R>(r: SatoriResult<R>, contest_open: bool, problem_open: bool) -> (s: ResolutionStep<R>)
    ensures
        s == resolution_step(r, contest_open, problem_open),
{
    match r {
        Err(SatoriError::AmbiguousContest(a)) => if contest_open {
            ResolutionStep::ChooseContest(a)
        } else {
            ResolutionStep::Finish(Err(SatoriError::AmbiguousContest(a)))
        },
        Err(SatoriError::AmbiguousProblem(a)) => if problem_open {
            ResolutionStep::ChooseProblem(a)
        } else {
            ResolutionStep::Finish(Err(SatoriError::AmbiguousProblem(a)))
        },
        other => ResolutionStep::Finish(other),
    }
}

/// The query that names problem `p` once chosen: its id, or its code when
/// it has no id.
pub open spec fn problem_key(p: Problem) -> Seq<char> {
    if p.id@.len() > 0 {
        p.id@
    } else {
        p.code@
    }
}

/// The queries an operation is issued with, and which of them may still be
/// settled by a choice.
pub ghost struct Queries {
    pub contest: Seq<char>,
    pub problem: Option<Seq<char>>,
    pub contest_open: bool,
    pub problem_open: bool,
}

/// Something that happened during one call.
pub ghost enum ResolveEvent<R> {
    /// The operation was issued with these queries and returned this.
    Issued(Seq<char>, Option<Seq<char>>, SatoriResult<R>),
    /// The operator's choice among contests gave this contest query, or
    /// `None` when the choice was declined or out of range.
    Chose(Option<Seq<char>>),
    /// The operator's choice among problems gave this contest query and
    /// this problem query, or `None` when the choice was declined or out of
    /// range.
    ChoseProblem(Option<(Seq<char>, Seq<char>)>),
}

/// Where the protocol stands.
pub ghost enum ResolveState<R> {
    /// About to issue the operation with these queries.
    Issuing(Queries),
    /// Waiting for a choice among the contests of an ambiguous query.
    ChoosingContest(Queries, AmbiguousNameError<Contest>),
    /// Waiting for a choice among the problems of an ambiguous query.
    ChoosingProblem(Queries, AmbiguousNameError<Problem>),
    /// Finished with this result.
    Done(SatoriResult<R>),
}

/// `id` is the id of one of the contests of `a`.
pub open spec fn is_contest_choice(a: AmbiguousNameError<Contest>, id: Seq<char>) -> bool {
    exists|k: int| 0 <= k < a.candidates@.len() && id == #[trigger] a.candidates@[k].id@
}

/// The contest query that scopes a chosen problem `p`, in place of the
/// query `contest`: the id of the contest the problem belongs to, when the
/// problem names it.
pub open spec fn contest_scope(contest: Seq<char>, p: Problem) -> Seq<char> {
    if p.contest_id@.len() > 0 {
        p.contest_id@
    } else {
        contest
    }
}

/// `c` and `key` are the contest query and the problem query of one of the
/// problems of `a`, chosen while the contest query was `contest`.
pub open spec fn is_problem_choice(
    a: AmbiguousNameError<Problem>,
    contest: Seq<char>,
    c: Seq<char>,
    key: Seq<char>,
) -> bool {
    exists|k: int|
        0 <= k < a.candidates@.len() && key == #[trigger] problem_key(a.candidates@[k]) && c
            == contest_scope(contest, a.candidates@[k])
}

/// The state after event `e` in state `s`. An event that does not fit the
/// state leaves it unchanged; a finished protocol stays finished.
pub open spec fn resolve_next<R>(s: ResolveState<R>, e: ResolveEvent<R>) -> ResolveState<R> {
    match s {
        ResolveState::Issuing(q) => match e {
            ResolveEvent::Issued(c, p, r) => if c == q.contest && p == q.problem {
                match resolution_step(r, q.contest_open, q.problem_open) {
                    ResolutionStep::Finish(x) => ResolveState::Done(x),
                    ResolutionStep::ChooseContest(a) => ResolveState::ChoosingContest(q, a),
                    ResolutionStep::ChooseProblem(a) => ResolveState::ChoosingProblem(q, a),
                }
            } else {
                s
            },
            ResolveEvent::Chose(_) => s,
            ResolveEvent::ChoseProblem(_) => s,
        },
        ResolveState::ChoosingContest(q, a) => match e {
            ResolveEvent::Chose(Some(id)) => if is_contest_choice(a, id) {
                ResolveState::Issuing(
                    Queries {
                        contest: id,
                        problem: q.problem,
                        contest_open: false,
                        problem_open: q.problem_open,
                    },
                )
            } else {
                s
            },
            ResolveEvent::Chose(None) => ResolveState::Done(Err(SatoriError::InvalidChoice)),
            _ => s,
        },
        ResolveState::ChoosingProblem(q, a) => match e {
            ResolveEvent::ChoseProblem(Some((c, key))) => if is_problem_choice(a, q.contest, c, key) {
                ResolveState::Issuing(
                    Queries {
                        contest: c,
                        problem: Some(key),
                        contest_open: q.contest_open,
                        problem_open: false,
                    },
                )
            } else {
                s
            },
            ResolveEvent::ChoseProblem(None) => ResolveState::Done(Err(SatoriError::InvalidChoice)),
            _ => s,
        },
        ResolveState::Done(_) => s,
    }
}

/// The starting state of a call with these queries.
pub open spec fn resolve_start<R>(contest: Seq<char>, problem: Option<Seq<char>>) -> ResolveState<R> {
    ResolveState::Issuing(Queries { contest, problem, contest_open: true, problem_open: true })
}

/// The state after the events `es` of a call with these queries.
pub open spec fn resolve_run<R>(contest: Seq<char>, problem: Option<Seq<char>>, es: Seq<ResolveEvent<R>>) -> ResolveState<R>
    decreases es.len(),
{
    if es.len() == 0 {
        resolve_start(contest, problem)
    } else {
        resolve_next(resolve_run(contest, problem, es.drop_last()), es.last())
    }
}

/// Each event of `es` fits the state it happens in: every issue uses that
/// state's queries, every choice answers an ambiguity, and the protocol is
/// not finished before the last event.
#[verifier::opaque]
pub open spec fn orderly<R>(contest: Seq<char>, problem: Option<Seq<char>>, es: Seq<ResolveEvent<R>>) -> bool {
    forall|k: int|
        0 <= k < es.len() ==> #[trigger] fits(resolve_run(contest, problem, es.subrange(0, k)), es[k])
}

/// Event `e` may happen in state `s`.
pub open spec fn fits<R>(s: ResolveState<R>, e: ResolveEvent<R>) -> bool {
    match e {
        ResolveEvent::Issued(c, p, _) => s matches ResolveState::Issuing(q) && q.contest == c
            && q.problem == p,
        ResolveEvent::Chose(_) => s is ChoosingContest,
        ResolveEvent::ChoseProblem(_) => s is ChoosingProblem,
    }
}

/// The events `es` are those of one call with these queries, which
/// returned as soon as the protocol finished.
pub open spec fn resolved_call<R>(contest: Seq<char>, problem: Option<Seq<char>>, es: Seq<ResolveEvent<R>>) -> bool {
    resolve_run(contest, problem, es) is Done && orderly(contest, problem, es)
}

/// An orderly run extended by an event that fits stays orderly.
pub proof fn lemma_orderly_push<R>(contest: Seq<char>, problem: Option<Seq<char>>, es: Seq<ResolveEvent<R>>, e: ResolveEvent<R>)
    requires
        orderly(contest, problem, es),
        fits(resolve_run(contest, problem, es), e),
    ensures
        orderly(contest, problem, es.push(e)),
        resolve_run(contest, problem, es.push(e)) == resolve_next(resolve_run(contest, problem, es), e),
{
    reveal(orderly);
    lemma_resolve_push(contest, problem, es, e);
    assert forall|k: int| 0 <= k < es.push(e).len() implies #[trigger] fits(
        resolve_run(contest, problem, es.push(e).subrange(0, k)),
        es.push(e)[k],
    ) by {
        if k < es.len() {
            assert(fits(resolve_run(contest, problem, es.subrange(0, k)), es[k]));
        }
    }
}

/// No events are orderly.
pub proof fn lemma_orderly_empty<R>(contest: Seq<char>, problem: Option<Seq<char>>)
    ensures
        orderly(contest, problem, Seq::<ResolveEvent<R>>::empty()),
{
    reveal(orderly);
}

/// The events of a finished call fit their states, each in turn.
pub proof fn lemma_orderly_at<R>(contest: Seq<char>, problem: Option<Seq<char>>, es: Seq<ResolveEvent<R>>, k: int)
    requires
        orderly(contest, problem, es),
        0 <= k < es.len(),
    ensures
        fits(resolve_run(contest, problem, es.subrange(0, k)), es[k]),
{
    reveal(orderly);
}

/// What `attempt` allows for an attempt with the queries `c` and `p`.
pub open spec fn at_queries<R>(
    attempt: spec_fn(Seq<char>, Option<Seq<char>>, SatoriResult<R>) -> bool,
    c: Seq<char>,
    p: Option<Seq<char>>,
) -> spec_fn(SatoriResult<R>) -> bool {
    |y: SatoriResult<R>| attempt(c, p, y)
}

/// `x` may be the result of issuing the operation with queries `c` and `p`:
/// a result of re-authenticated attempts with those very queries.
pub open spec fn issued_by<R>(
    c: Seq<char>,
    p: Option<Seq<char>>,
    x: SatoriResult<R>,
    attempt: spec_fn(Seq<char>, Option<Seq<char>>, SatoriResult<R>) -> bool,
    login: spec_fn(SatoriResult<String>) -> bool,
) -> bool {
    !(x matches Err(SatoriError::NotLoggedIn)) && retried_by(x, at_queries(attempt, c, p), login)
}

/// Every issue in `es` returned what `issued_by` allows for its queries.
pub open spec fn issues_by<R>(
    es: Seq<ResolveEvent<R>>,
    attempt: spec_fn(Seq<char>, Option<Seq<char>>, SatoriResult<R>) -> bool,
    login: spec_fn(SatoriResult<String>) -> bool,
) -> bool {
    forall|i: int|
        0 <= i < es.len() ==> (#[trigger] es[i] matches ResolveEvent::Issued(c, p, x) ==> issued_by(
            c,
            p,
            x,
            attempt,
            login,
        ))
}

/// `r` is what a call with these queries returns on some run of events in
/// which every issue returned what `issued_by` allows for its queries.
pub open spec fn resolved_by<R>(
    contest: Seq<char>,
    problem: Option<Seq<char>>,
    r: SatoriResult<R>,
    attempt: spec_fn(Seq<char>, Option<Seq<char>>, SatoriResult<R>) -> bool,
    login: spec_fn(SatoriResult<String>) -> bool,
) -> bool {
    exists|es: Seq<ResolveEvent<R>>|
        #![trigger resolve_run(contest, problem, es)]
        resolved_call(contest, problem, es) && resolve_run(contest, problem, es) == ResolveState::Done(r)
            && issues_by(es, attempt, login)
}

/// Extending the events by one whose issue, if any, returned what
/// `issued_by` allows keeps them within `issues_by`.
pub proof fn lemma_issues_push<R>(
    es: Seq<ResolveEvent<R>>,
    e: ResolveEvent<R>,
    attempt: spec_fn(Seq<char>, Option<Seq<char>>, SatoriResult<R>) -> bool,
    login: spec_fn(SatoriResult<String>) -> bool,
)
    requires
        issues_by(es, attempt, login),
        e matches ResolveEvent::Issued(c, p, x) ==> issued_by(c, p, x, attempt, login),
    ensures
        issues_by(es.push(e), attempt, login),
{
    assert forall|i: int| 0 <= i < es.push(e).len() implies (#[trigger] es.push(e)[i] matches ResolveEvent::Issued(
        c,
        p,
        x,
    ) ==> issued_by(c, p, x, attempt, login)) by {
        if i < es.len() {
            assert(es.push(e)[i] == es[i]);
        }
    }
}

/// Extending a run by one event takes one step and keeps the earlier
/// prefixes.
pub proof fn lemma_resolve_push<R>(contest: Seq<char>, problem: Option<Seq<char>>, es: Seq<ResolveEvent<R>>, e: ResolveEvent<R>)
    ensures
        resolve_run(contest, problem, es.push(e)) == resolve_next(resolve_run(contest, problem, es), e),
        forall|k: int| 0 <= k <= es.len() ==> #[trigger] es.push(e).subrange(0, k) == es.subrange(0, k),
        es.push(e).subrange(0, es.len() as int) == es,
        es.push(e)[es.len() as int] == e,
{
    assert(es.push(e).drop_last() =~= es);
    assert forall|k: int| 0 <= k <= es.len() implies #[trigger] es.push(e).subrange(0, k) == es.subrange(0, k) by {
        assert(es.push(e).subrange(0, k) =~= es.subrange(0, k));
    }
}

/// A first result that asks for no choice is returned unchanged, and the
/// operation is issued only once.
pub proof fn lemma_unambiguous_result_returned<R>(
    contest: Seq<char>,
    problem: Option<Seq<char>>,
    es: Seq<ResolveEvent<R>>,
    r: SatoriResult<R>,
)
    requires
        es.len() >= 1,
        es[0] == ResolveEvent::Issued(contest, problem, r),
        !(r matches Err(SatoriError::AmbiguousContest(_))),
        !(r matches Err(SatoriError::AmbiguousProblem(_))),
        resolved_call(contest, problem, es),
    ensures
        es.len() == 1,
        resolve_run(contest, problem, es) == ResolveState::Done(r),
{
    assert(es.subrange(0, 1).drop_last() =~= es.subrange(0, 0));
    assert(es.subrange(0, 1).last() == es[0]);
    assert(resolve_run(contest, problem, es.subrange(0, 0)) == resolve_start::<R>(contest, problem));
    assert(resolve_run(contest, problem, es.subrange(0, 1)) == ResolveState::Done(r));
    if es.len() > 1 {
        lemma_orderly_at(contest, problem, es, 1);
    }
    assert(es.subrange(0, 1) =~= es);
}

/// After an ambiguous contest query and the choice of candidate `k`, the
/// operation is issued again with that candidate's id as the contest query
/// and the problem query unchanged.
pub proof fn lemma_chosen_contest_reissued<R>(
    contest: Seq<char>,
    problem: Option<Seq<char>>,
    es: Seq<ResolveEvent<R>>,
    a: AmbiguousNameError<Contest>,
    k: int,
)
    requires
        es.len() >= 3,
        0 <= k < a.candidates@.len(),
        es[0] == ResolveEvent::<R>::Issued(contest, problem, Err(SatoriError::AmbiguousContest(a))),
        es[1] == ResolveEvent::<R>::Chose(Some(a.candidates@[k].id@)),
        resolved_call(contest, problem, es),
    ensures
        es[2] matches ResolveEvent::Issued(c, p, _) ==> c == a.candidates@[k].id@ && p == problem,
        es[2] is Issued,
{
    assert(es.subrange(0, 1).drop_last() =~= es.subrange(0, 0));
    assert(es.subrange(0, 1).last() == es[0]);
    assert(resolve_run(contest, problem, es.subrange(0, 0)) == resolve_start::<R>(contest, problem));
    assert(es.subrange(0, 2).drop_last() =~= es.subrange(0, 1));
    assert(resolve_run(contest, problem, es.subrange(0, 1)) == ResolveState::<R>::ChoosingContest(
        Queries { contest, problem, contest_open: true, problem_open: true },
        a,
    ));
    assert(es.subrange(0, 2).last() == es[1]);
    assert(es.subrange(0, 1).last() == es[0]);
    assert(resolve_run(contest, problem, es.subrange(0, 0)) == resolve_start::<R>(contest, problem));
    let id = a.candidates@[k].id@;
    assert(0 <= k < a.candidates@.len() && id == a.candidates@[k].id@);
    let q2 = Queries { contest: id, problem, contest_open: false, problem_open: true };
    let q1 = Queries { contest, problem, contest_open: true, problem_open: true };
    assert(is_contest_choice(a, id));
    assert(resolve_next(ResolveState::<R>::ChoosingContest(q1, a), ResolveEvent::<R>::Chose(Some(id)))
        == ResolveState::<R>::Issuing(q2));
    assert(resolve_run(contest, problem, es.subrange(0, 2)) == ResolveState::<R>::Issuing(q2));
    lemma_orderly_at(contest, problem, es, 2);
}

/// After an ambiguous problem query and the choice of candidate `k`, the
/// operation is issued again scoped to that candidate's contest, with the
/// candidate's key as the problem query.
pub proof fn lemma_chosen_problem_reissued<R>(
    contest: Seq<char>,
    problem: Option<Seq<char>>,
    es: Seq<ResolveEvent<R>>,
    a: AmbiguousNameError<Problem>,
    k: int,
)
    requires
        es.len() >= 3,
        0 <= k < a.candidates@.len(),
        es[0] == ResolveEvent::<R>::Issued(contest, problem, Err(SatoriError::AmbiguousProblem(a))),
        es[1] == ResolveEvent::<R>::ChoseProblem(
            Some((contest_scope(contest, a.candidates@[k]), problem_key(a.candidates@[k]))),
        ),
        resolved_call(contest, problem, es),
    ensures
        es[2] matches ResolveEvent::Issued(c, p, _) ==> c == contest_scope(contest, a.candidates@[k])
            && p == Some(problem_key(a.candidates@[k])),
        es[2] is Issued,
{
    assert(es.subrange(0, 1).drop_last() =~= es.subrange(0, 0));
    assert(es.subrange(0, 1).last() == es[0]);
    assert(resolve_run(contest, problem, es.subrange(0, 0)) == resolve_start::<R>(contest, problem));
    assert(es.subrange(0, 2).drop_last() =~= es.subrange(0, 1));
    assert(es.subrange(0, 2).last() == es[1]);
    let q1 = Queries { contest, problem, contest_open: true, problem_open: true };
    assert(resolve_run(contest, problem, es.subrange(0, 1)) == ResolveState::<R>::ChoosingProblem(
        q1,
        a,
    ));
    let c = contest_scope(contest, a.candidates@[k]);
    let key = problem_key(a.candidates@[k]);
    assert(is_problem_choice(a, contest, c, key));
    let q2 = Queries { contest: c, problem: Some(key), contest_open: true, problem_open: false };
    assert(resolve_next(ResolveState::<R>::ChoosingProblem(q1, a), es[1]) == ResolveState::<R>::Issuing(q2));
    assert(resolve_run(contest, problem, es.subrange(0, 2)) == ResolveState::<R>::Issuing(q2));
    lemma_orderly_at(contest, problem, es, 2);
}

/// A declined or out-of-range choice ends the call with `InvalidChoice`,
/// and the operation is not issued again.
pub proof fn lemma_declined_choice_ends_call<R>(
    contest: Seq<char>,
    problem: Option<Seq<char>>,
    es: Seq<ResolveEvent<R>>,
    r: SatoriResult<R>,
)
    requires
        es.len() >= 2,
        es[0] == ResolveEvent::Issued(contest, problem, r),
        (r matches Err(SatoriError::AmbiguousContest(_)) && es[1] == ResolveEvent::<R>::Chose(None))
            || (r matches Err(SatoriError::AmbiguousProblem(_)) && es[1]
            == ResolveEvent::<R>::ChoseProblem(None)),
        resolved_call(contest, problem, es),
    ensures
        es.len() == 2,
        resolve_run(contest, problem, es) == ResolveState::<R>::Done(Err(SatoriError::InvalidChoice)),
{
    assert(es.subrange(0, 1).drop_last() =~= es.subrange(0, 0));
    assert(es.subrange(0, 1).last() == es[0]);
    assert(resolve_run(contest, problem, es.subrange(0, 0)) == resolve_start::<R>(contest, problem));
    assert(es.subrange(0, 2).drop_last() =~= es.subrange(0, 1));
    assert(es.subrange(0, 2).last() == es[1]);
    assert(resolve_run(contest, problem, es.subrange(0, 1)) is ChoosingContest || resolve_run(
        contest,
        problem,
        es.subrange(0, 1),
    ) is ChoosingProblem);
    assert(resolve_run(contest, problem, es.subrange(0, 2)) == ResolveState::<R>::Done(
        Err(SatoriError::InvalidChoice),
    ));
    if es.len() > 2 {
        lemma_orderly_at(contest, problem, es, 2);
    }
    assert(es.subrange(0, 2) =~= es);
}

/// Where a run's result comes from, step by step.
proof fn lemma_resolve_origin<R>(
    contest: Seq<char>,
    problem: Option<Seq<char>>,
    es: Seq<ResolveEvent<R>>,
    attempt: spec_fn(Seq<char>, Option<Seq<char>>, SatoriResult<R>) -> bool,
    login: spec_fn(SatoriResult<String>) -> bool,
)
    requires
        issues_by(es, attempt, login),
    ensures
        resolve_run(contest, problem, es) matches ResolveState::Done(x) ==> x matches Err(
            SatoriError::InvalidChoice,
        ) || exists|c: Seq<char>, p: Option<Seq<char>>| issued_by(c, p, x, attempt, login),
    decreases es.len(),
{
    if es.len() > 0 {
        let init = es.drop_last();
        assert forall|i: int| 0 <= i < init.len() implies (#[trigger] init[i] matches ResolveEvent::Issued(
            c,
            p,
            x,
        ) ==> issued_by(c, p, x, attempt, login)) by {
            assert(init[i] == es[i]);
        }
        lemma_resolve_origin(contest, problem, init, attempt, login);
        let last = es[es.len() - 1];
        if let ResolveEvent::Issued(c, p, x) = last {
            assert(issued_by(c, p, x, attempt, login));
        }
    }
}

/// No result is made up: what one call returns is the result of issuing
/// the operation with some queries, or `InvalidChoice` after a declined or
/// out-of-range choice.
pub proof fn lemma_resolved_result_origin<R>(
    contest: Seq<char>,
    problem: Option<Seq<char>>,
    r: SatoriResult<R>,
    attempt: spec_fn(Seq<char>, Option<Seq<char>>, SatoriResult<R>) -> bool,
    login: spec_fn(SatoriResult<String>) -> bool,
)
    requires
        resolved_by(contest, problem, r, attempt, login),
    ensures
        r matches Err(SatoriError::InvalidChoice) || exists|c: Seq<char>, p: Option<Seq<char>>|
            issued_by(c, p, r, attempt, login),
{
    let es = choose|es: Seq<ResolveEvent<R>>|
        resolved_call(contest, problem, es) && resolve_run(contest, problem, es) == ResolveState::Done(r)
            && issues_by(es, attempt, login);
    lemma_resolve_origin(contest, problem, es, attempt, login);
}

} // verus!
