//! Resolving free-text queries against scraped collections. A contest
//! matches a query when its id or its name begins with it; a problem, when
//! its id, its name or its code does. Matching is case-sensitive.

use crate::satori::{AmbiguousNameError, Contest, Problem, SatoriError, SatoriResult};
use crate::text::{has_prefix, starts_with};
use vstd::prelude::*;

verus! {

/// Whether contest `c` matches query `q`.
pub open spec fn contest_matches(c: Contest, q: Seq<char>) -> bool {
    starts_with(c.id@, q) || starts_with(c.name@, q)
}

/// Whether problem `p` matches query `q`.
pub open spec fn problem_matches(p: Problem, q: Seq<char>) -> bool {
    starts_with(p.id@, q) || starts_with(p.name@, q) || starts_with(p.code@, q)
}

/// The contests of `cs` that match `q`, in their order in `cs`.
pub open spec fn matching_contests(cs: Seq<Contest>, q: Seq<char>) -> Seq<Contest> {
    cs.filter(|c: Contest| contest_matches(c, q))
}

/// The problems of `ps` that match `q`, in their order in `ps`.
pub open spec fn matching_problems(ps: Seq<Problem>, q: Seq<char>) -> Seq<Problem> {
    ps.filter(|p: Problem| problem_matches(p, q))
}

/// The classification of a search: nothing, exactly one entity, or several.
pub enum UniqueSearchResult<T> {
    NotFound,
    Found(T),
    Ambiguous(Vec<T>),
}

/// `r` classifies the matches `m` of a search.
pub open spec fn classifies<T>(m: Seq<T>, r: UniqueSearchResult<T>) -> bool {
    match r {
        UniqueSearchResult::NotFound => m.len() == 0,
        UniqueSearchResult::Found(x) => m.len() == 1 && x == m[0],
        UniqueSearchResult::Ambiguous(v) => m.len() >= 2 && v@ == m,
    }
}

/// `r` is the outcome of resolving query `q` against contests `cs`.
pub open spec fn resolves_contest(cs: Seq<Contest>, q: Seq<char>, r: SatoriResult<Contest>) -> bool {
    let m = matching_contests(cs, q);
    match r {
        Ok(c) => m.len() == 1 && c == m[0],
        Err(SatoriError::ContestNotFound) => m.len() == 0,
        Err(SatoriError::AmbiguousContest(e)) => m.len() >= 2 && e.name@ == q && e.candidates@ == m,
        _ => false,
    }
}

/// `r` is the outcome of resolving query `q` against problems `ps`.
pub open spec fn resolves_problem(ps: Seq<Problem>, q: Seq<char>, r: SatoriResult<Problem>) -> bool {
    let m = matching_problems(ps, q);
    match r {
        Ok(p) => m.len() == 1 && p == m[0],
        Err(SatoriError::ProblemNotFound) => m.len() == 0,
        Err(SatoriError::AmbiguousProblem(e)) => m.len() >= 2 && e.name@ == q && e.candidates@ == m,
        _ => false,
    }
}

/// If `e` is an ambiguous contest query, it names `q` and lists at least two
/// contests, each matching `q`.
pub open spec fn contest_ambiguity_fits(e: SatoriError, q: Seq<char>) -> bool {
    e matches SatoriError::AmbiguousContest(a) ==> a.name@ == q && a.candidates@.len() >= 2 && (
    forall|k: int| 0 <= k < a.candidates@.len() ==> #[trigger] contest_matches(a.candidates@[k], q))
}

/// If `e` is an ambiguous problem query, it names `q` and lists at least two
/// problems, each matching `q`.
pub open spec fn problem_ambiguity_fits(e: SatoriError, q: Seq<char>) -> bool {
    e matches SatoriError::AmbiguousProblem(a) ==> a.name@ == q && a.candidates@.len() >= 2 && (
    forall|k: int| 0 <= k < a.candidates@.len() ==> #[trigger] problem_matches(a.candidates@[k], q))
}

/// Whether contest `c` matches `prefix`.
pub fn contest_has_prefix(c: &Contest, prefix: &str) -> (r: bool)
    ensures
        r == contest_matches(*c, prefix@),
{
    has_prefix(c.id.as_str(), prefix) || has_prefix(c.name.as_str(), prefix)
}

/// Whether problem `p` matches `prefix`.
pub fn problem_has_prefix(p: &Problem, prefix: &str) -> (r: bool)
    ensures
        r == problem_matches(*p, prefix@),
{
    has_prefix(p.id.as_str(), prefix) || has_prefix(p.name.as_str(), prefix) || has_prefix(
        p.code.as_str(),
        prefix,
    )
}

/// Classifies the contests that match `prefix`, keeping their order.
pub fn find_unique_contest(contests: Vec<Contest>, prefix: &str) -> (r: UniqueSearchResult<Contest>)
    ensures
        classifies(matching_contests(contests@, prefix@), r),
{
    let ghost all = contests@;
    let mut rest = contests;
    let mut found: Vec<Contest> = Vec::new();
    proof {
        reveal(Seq::filter);
        assert(matching_contests(all.subrange(0, 0), prefix@).len() == 0);
    }
    while rest.len() > 0
        invariant
            rest@.len() <= all.len(),
            rest@ == all.subrange(all.len() - rest@.len(), all.len() as int),
            found@ == matching_contests(all.subrange(0, all.len() - rest@.len()), prefix@),
        decreases rest.len(),
    {
        let ghost k = all.len() - rest@.len();
        let c = rest.remove(0);
        assert(c == all[k]);
        assert(all.subrange(0, k + 1).drop_last() =~= all.subrange(0, k));
        proof {
            reveal(Seq::filter);
            let s = all.subrange(0, k + 1);
            assert(s.last() == c);
            assert(matching_contests(s, prefix@) == if contest_matches(c, prefix@) {
                matching_contests(s.drop_last(), prefix@).push(c)
            } else {
                matching_contests(s.drop_last(), prefix@)
            });
        }
        if contest_has_prefix(&c, prefix) {
            found.push(c);
        }
        assert(rest@ =~= all.subrange(k + 1, all.len() as int));
    }
    assert(all.subrange(0, all.len() as int) =~= all);
    if found.len() == 0 {
        UniqueSearchResult::NotFound
    } else if found.len() == 1 {
        UniqueSearchResult::Found(found.remove(0))
    } else {
        UniqueSearchResult::Ambiguous(found)
    }
}

/// Classifies the problems that match `prefix`, keeping their order.
pub fn find_unique_problem(problems: Vec<Problem>, prefix: &str) -> (r: UniqueSearchResult<Problem>)
    ensures
        classifies(matching_problems(problems@, prefix@), r),
{
    let ghost all = problems@;
    let mut rest = problems;
    let mut found: Vec<Problem> = Vec::new();
    proof {
        reveal(Seq::filter);
        assert(matching_problems(all.subrange(0, 0), prefix@).len() == 0);
    }
    while rest.len() > 0
        invariant
            rest@.len() <= all.len(),
            rest@ == all.subrange(all.len() - rest@.len(), all.len() as int),
            found@ == matching_problems(all.subrange(0, all.len() - rest@.len()), prefix@),
        decreases rest.len(),
    {
        let ghost k = all.len() - rest@.len();
        let p = rest.remove(0);
        assert(p == all[k]);
        assert(all.subrange(0, k + 1).drop_last() =~= all.subrange(0, k));
        proof {
            reveal(Seq::filter);
            let s = all.subrange(0, k + 1);
            assert(s.last() == p);
            assert(matching_problems(s, prefix@) == if problem_matches(p, prefix@) {
                matching_problems(s.drop_last(), prefix@).push(p)
            } else {
                matching_problems(s.drop_last(), prefix@)
            });
        }
        if problem_has_prefix(&p, prefix) {
            found.push(p);
        }
        assert(rest@ =~= all.subrange(k + 1, all.len() as int));
    }
    assert(all.subrange(0, all.len() as int) =~= all);
    if found.len() == 0 {
        UniqueSearchResult::NotFound
    } else if found.len() == 1 {
        UniqueSearchResult::Found(found.remove(0))
    } else {
        UniqueSearchResult::Ambiguous(found)
    }
}

/// Resolves `query` against `contests`: the single match, or the error that
/// says why there is none.
pub fn resolve_contest(contests: Vec<Contest>, query: &str) -> (r: SatoriResult<Contest>)
    ensures
        resolves_contest(contests@, query@, r),
        r matches Ok(c) ==> contest_matches(c, query@),
        r matches Err(e) ==> (e is ContestNotFound || e is AmbiguousContest) && contest_ambiguity_fits(
            e,
            query@,
        ),
{
    proof {
        let m = matching_contests(contests@, query@);
        assert forall|k: int| 0 <= k < m.len() implies #[trigger] contest_matches(m[k], query@) by {
            contests@.lemma_filter_pred(|c: Contest| contest_matches(c, query@), k);
        }
    }
    match find_unique_contest(contests, query) {
        UniqueSearchResult::NotFound => Err(SatoriError::ContestNotFound),
        UniqueSearchResult::Found(c) => Ok(c),
        UniqueSearchResult::Ambiguous(candidates) => Err(
            SatoriError::AmbiguousContest(
                AmbiguousNameError { name: query.to_string(), candidates },
            ),
        ),
    }
}

/// Resolves `query` against `problems`: the single match, or the error that
/// says why there is none.
pub fn resolve_problem(problems: Vec<Problem>, query: &str) -> (r: SatoriResult<Problem>)
    ensures
        resolves_problem(problems@, query@, r),
        r matches Ok(p) ==> problem_matches(p, query@),
        r matches Err(e) ==> (e is ProblemNotFound || e is AmbiguousProblem) && problem_ambiguity_fits(
            e,
            query@,
        ),
{
    proof {
        let m = matching_problems(problems@, query@);
        assert forall|k: int| 0 <= k < m.len() implies #[trigger] problem_matches(m[k], query@) by {
            problems@.lemma_filter_pred(|p: Problem| problem_matches(p, query@), k);
        }
    }
    match find_unique_problem(problems, query) {
        UniqueSearchResult::NotFound => Err(SatoriError::ProblemNotFound),
        UniqueSearchResult::Found(p) => Ok(p),
        UniqueSearchResult::Ambiguous(candidates) => Err(
            SatoriError::AmbiguousProblem(
                AmbiguousNameError { name: query.to_string(), candidates },
            ),
        ),
    }
}

/// Filtering keeps nothing when nothing satisfies the predicate.
proof fn lemma_filter_none<A>(s: Seq<A>, pred: spec_fn(A) -> bool)
    requires
        forall|j: int| 0 <= j < s.len() ==> !pred(s[j]),
    ensures
        s.filter(pred).len() == 0,
    decreases s.len(),
{
    reveal(Seq::filter);
    if s.len() > 0 {
        lemma_filter_none(s.drop_last(), pred);
    }
}

/// Filtering keeps exactly `s[i]` when it alone satisfies the predicate.
proof fn lemma_filter_single<A>(s: Seq<A>, pred: spec_fn(A) -> bool, i: int)
    requires
        0 <= i < s.len(),
        pred(s[i]),
        forall|j: int| 0 <= j < s.len() && j != i ==> !pred(s[j]),
    ensures
        s.filter(pred) == seq![s[i]],
    decreases s.len(),
{
    reveal(Seq::filter);
    if i == s.len() - 1 {
        lemma_filter_none(s.drop_last(), pred);
        assert(s.filter(pred) =~= seq![s[i]]);
    } else {
        lemma_filter_single(s.drop_last(), pred, i);
    }
}

/// Filtering keeps at least two elements when two positions satisfy the
/// predicate.
proof fn lemma_filter_two<A>(s: Seq<A>, pred: spec_fn(A) -> bool, i: int, j: int)
    requires
        0 <= i < j < s.len(),
        pred(s[i]),
        pred(s[j]),
    ensures
        s.filter(pred).len() >= 2,
    decreases s.len(),
{
    reveal(Seq::filter);
    if j == s.len() - 1 {
        s.drop_last().lemma_filter_contains(pred, i);
        assert(s.drop_last().filter(pred).len() >= 1) by {
            s.drop_last().lemma_filter_len(pred);
            assert(s.drop_last().filter(pred).contains(s[i]));
        }
    } else {
        lemma_filter_two(s.drop_last(), pred, i, j);
    }
}

/// A query matched by exactly one contest resolves to that contest.
pub proof fn lemma_contest_unique_match(cs: Seq<Contest>, q: Seq<char>, i: int, r: SatoriResult<Contest>)
    requires
        0 <= i < cs.len(),
        contest_matches(cs[i], q),
        forall|j: int| 0 <= j < cs.len() && j != i ==> !contest_matches(cs[j], q),
        resolves_contest(cs, q, r),
    ensures
        r == Ok::<Contest, SatoriError>(cs[i]),
{
    lemma_filter_single(cs, |c: Contest| contest_matches(c, q), i);
}

/// A query matched by exactly one problem resolves to that problem.
pub proof fn lemma_problem_unique_match(ps: Seq<Problem>, q: Seq<char>, i: int, r: SatoriResult<Problem>)
    requires
        0 <= i < ps.len(),
        problem_matches(ps[i], q),
        forall|j: int| 0 <= j < ps.len() && j != i ==> !problem_matches(ps[j], q),
        resolves_problem(ps, q, r),
    ensures
        r == Ok::<Problem, SatoriError>(ps[i]),
{
    lemma_filter_single(ps, |p: Problem| problem_matches(p, q), i);
}

/// A query matched by no contest fails with `ContestNotFound`.
pub proof fn lemma_contest_no_match(cs: Seq<Contest>, q: Seq<char>, r: SatoriResult<Contest>)
    requires
        forall|j: int| 0 <= j < cs.len() ==> !contest_matches(cs[j], q),
        resolves_contest(cs, q, r),
    ensures
        r matches Err(SatoriError::ContestNotFound),
{
    lemma_filter_none(cs, |c: Contest| contest_matches(c, q));
}

/// A query matched by no problem fails with `ProblemNotFound`.
pub proof fn lemma_problem_no_match(ps: Seq<Problem>, q: Seq<char>, r: SatoriResult<Problem>)
    requires
        forall|j: int| 0 <= j < ps.len() ==> !problem_matches(ps[j], q),
        resolves_problem(ps, q, r),
    ensures
        r matches Err(SatoriError::ProblemNotFound),
{
    lemma_filter_none(ps, |p: Problem| problem_matches(p, q));
}

/// A query matched by two or more contests fails with `AmbiguousContest`,
/// naming the query and listing exactly the matching contests in their
/// original order.
pub proof fn lemma_contest_several_matches(
    cs: Seq<Contest>,
    q: Seq<char>,
    i: int,
    j: int,
    r: SatoriResult<Contest>,
)
    requires
        0 <= i < j < cs.len(),
        contest_matches(cs[i], q),
        contest_matches(cs[j], q),
        resolves_contest(cs, q, r),
    ensures
        r matches Err(SatoriError::AmbiguousContest(e)) && e.name@ == q && e.candidates@
            == matching_contests(cs, q) && (forall|k: int|
            0 <= k < e.candidates@.len() ==> #[trigger] contest_matches(e.candidates@[k], q)) && (
        forall|k: int|
            0 <= k < cs.len() && #[trigger] contest_matches(cs[k], q)
                ==> e.candidates@.contains(cs[k])),
{
    let pred = |c: Contest| contest_matches(c, q);
    lemma_filter_two(cs, pred, i, j);
    assert forall|k: int| 0 <= k < cs.filter(pred).len() implies #[trigger] contest_matches(
        cs.filter(pred)[k],
        q,
    ) by {
        cs.lemma_filter_pred(pred, k);
    }
    assert forall|k: int| 0 <= k < cs.len() && #[trigger] contest_matches(cs[k], q) implies cs.filter(
        pred,
    ).contains(cs[k]) by {
        cs.lemma_filter_contains(pred, k);
    }
}

/// A query matched by two or more problems fails with `AmbiguousProblem`,
/// naming the query and listing exactly the matching problems in their
/// original order.
pub proof fn lemma_problem_several_matches(
    ps: Seq<Problem>,
    q: Seq<char>,
    i: int,
    j: int,
    r: SatoriResult<Problem>,
)
    requires
        0 <= i < j < ps.len(),
        problem_matches(ps[i], q),
        problem_matches(ps[j], q),
        resolves_problem(ps, q, r),
    ensures
        r matches Err(SatoriError::AmbiguousProblem(e)) && e.name@ == q && e.candidates@
            == matching_problems(ps, q) && (forall|k: int|
            0 <= k < e.candidates@.len() ==> #[trigger] problem_matches(e.candidates@[k], q)) && (
        forall|k: int|
            0 <= k < ps.len() && #[trigger] problem_matches(ps[k], q)
                ==> e.candidates@.contains(ps[k])),
{
    let pred = |p: Problem| problem_matches(p, q);
    lemma_filter_two(ps, pred, i, j);
    assert forall|k: int| 0 <= k < ps.filter(pred).len() implies #[trigger] problem_matches(
        ps.filter(pred)[k],
        q,
    ) by {
        ps.lemma_filter_pred(pred, k);
    }
    assert forall|k: int| 0 <= k < ps.len() && #[trigger] problem_matches(ps[k], q) implies ps.filter(
        pred,
    ).contains(ps[k]) by {
        ps.lemma_filter_contains(pred, k);
    }
}

/// Choosing candidate `k` of an ambiguous contest query and resolving again
/// with that candidate's id gives that very contest, whenever its id picks
/// it out among the contests (an id that begins another contest's id or
/// name would be ambiguous in turn).
pub proof fn lemma_chosen_contest_resolves(cs: Seq<Contest>, q: Seq<char>, k: int, r: SatoriResult<Contest>)
    requires
        matching_contests(cs, q).len() >= 2,
        0 <= k < matching_contests(cs, q).len(),
        matching_contests(cs, matching_contests(cs, q)[k].id@).len() == 1,
        resolves_contest(cs, matching_contests(cs, q)[k].id@, r),
    ensures
        r == Ok::<Contest, SatoriError>(matching_contests(cs, q)[k]),
        r matches Ok(c) && c.id@ == matching_contests(cs, q)[k].id@,
{
    let pred = |c: Contest| contest_matches(c, q);
    let chosen = cs.filter(pred)[k];
    let id = chosen.id@;
    let by_id = |c: Contest| contest_matches(c, id);
    assert(cs.filter(pred).contains(chosen));
    cs.lemma_filter_contains_rev(pred, chosen);
    let i = choose|i: int| 0 <= i < cs.len() && cs[i] == chosen;
    assert(id =~= id.subrange(0, id.len() as int));
    assert(by_id(cs[i]));
    cs.lemma_filter_contains(by_id, i);
    assert(cs.filter(by_id).contains(chosen));
}

/// Choosing candidate `k` of an ambiguous problem query and resolving again
/// with that candidate's id gives that very problem, whenever its id picks
/// it out among the problems.
pub proof fn lemma_chosen_problem_resolves(ps: Seq<Problem>, q: Seq<char>, k: int, r: SatoriResult<Problem>)
    requires
        matching_problems(ps, q).len() >= 2,
        0 <= k < matching_problems(ps, q).len(),
        matching_problems(ps, matching_problems(ps, q)[k].id@).len() == 1,
        resolves_problem(ps, matching_problems(ps, q)[k].id@, r),
    ensures
        r == Ok::<Problem, SatoriError>(matching_problems(ps, q)[k]),
{
    let pred = |p: Problem| problem_matches(p, q);
    let chosen = ps.filter(pred)[k];
    let id = chosen.id@;
    let by_id = |p: Problem| problem_matches(p, id);
    assert(ps.filter(pred).contains(chosen));
    ps.lemma_filter_contains_rev(pred, chosen);
    let i = choose|i: int| 0 <= i < ps.len() && ps[i] == chosen;
    assert(id =~= id.subrange(0, id.len() as int));
    assert(by_id(ps[i]));
    ps.lemma_filter_contains(by_id, i);
    assert(ps.filter(by_id).contains(chosen));
}

} // verus!
