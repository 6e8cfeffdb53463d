//! The re-authentication protocol as a state machine. An operation is
//! attempted; an expired session leads to login rounds, each of which ends
//! in a declined prompt or in the platform's answer to the credentials; a
//! successful login re-issues the operation unchanged.

use crate::satori::{SatoriError, SatoriResult};
use vstd::prelude::*;

verus! {

/// What follows an attempt of the operation.
#[derive(Debug)]
pub enum AttemptStep<T> {
    /// The attempt's result is the caller's.
    Finish(SatoriResult<T>),
    /// The session has expired: log in before trying again.
    Reauthenticate,
}

/// What follows one login round.
#[derive(Debug)]
pub enum LoginStep {
    /// Logged in: issue the operation again.
    Reissue,
    /// The login failed: ask for credentials again.
    PromptAgain,
    /// Stop, and give the caller this error.
    Abort(SatoriError),
}

/// The step after an attempt that returned `r`.
pub open spec fn attempt_step<T>(r: SatoriResult<T>) -> AttemptStep<T> {
    match r {
        Err(SatoriError::NotLoggedIn) => AttemptStep::Reauthenticate,
        _ => AttemptStep::Finish(r),
    }
}

/// The step after a login round: `None` when the operator declined to give
/// credentials, otherwise the result of logging in with them.
pub open spec fn login_step(outcome: Option<SatoriResult<String>>) -> LoginStep {
    match outcome {
        None => LoginStep::Abort(SatoriError::LoginFailed),
        Some(Ok(_)) => LoginStep::Reissue,
        Some(Err(SatoriError::LoginFailed)) => LoginStep::PromptAgain,
        Some(Err(SatoriError::NotLoggedIn)) => LoginStep::PromptAgain,
        Some(Err(e)) => LoginStep::Abort(e),
    }
}

/// Decides what follows an attempt that returned `r`.
pub fn after_attempt<T>(r: SatoriResult<T>) -> (s: AttemptStep<T>)
    ensures
        s == attempt_step(r),
{
    match r {
        Err(SatoriError::NotLoggedIn) => AttemptStep::Reauthenticate,
        _ => AttemptStep::Finish(r),
    }
}

/// Decides what follows a login round.
pub fn after_login(outcome: Option<SatoriResult<String>>) -> (s: LoginStep)
    ensures
        s == login_step(outcome),
{
    match outcome {
        None => LoginStep::Abort(SatoriError::LoginFailed),
        Some(Ok(_)) => LoginStep::Reissue,
        Some(Err(SatoriError::LoginFailed)) => LoginStep::PromptAgain,
        Some(Err(SatoriError::NotLoggedIn)) => LoginStep::PromptAgain,
        Some(Err(e)) => LoginStep::Abort(e),
    }
}

/// Something that happened during one call of the wrapper.
pub ghost enum RetryEvent<T> {
    /// The operation was issued and returned this.
    Attempted(SatoriResult<T>),
    /// A login round ended so (see `login_step`).
    LoggedIn(Option<SatoriResult<String>>),
}

/// Where the protocol stands.
pub ghost enum RetryState<T> {
    /// About to issue the operation.
    Attempting,
    /// About to ask for credentials.
    AwaitingLogin,
    /// Finished with this result.
    Done(SatoriResult<T>),
}

/// The state after event `e` in state `s`. An event that does not fit the
/// state leaves it unchanged; a finished protocol stays finished.
pub open spec fn retry_next<T>(s: RetryState<T>, e: RetryEvent<T>) -> RetryState<T> {
    match (s, e) {
        (RetryState::Attempting, RetryEvent::Attempted(r)) => match attempt_step(r) {
            AttemptStep::Finish(x) => RetryState::Done(x),
            AttemptStep::Reauthenticate => RetryState::AwaitingLogin,
        },
        (RetryState::AwaitingLogin, RetryEvent::LoggedIn(o)) => match login_step(o) {
            LoginStep::Reissue => RetryState::Attempting,
            LoginStep::PromptAgain => RetryState::AwaitingLogin,
            LoginStep::Abort(err) => RetryState::Done(Err(err)),
        },
        _ => s,
    }
}

/// The state after the events `es`, from the start of a call.
pub open spec fn retry_run<T>(es: Seq<RetryEvent<T>>) -> RetryState<T>
    decreases es.len(),
{
    if es.len() == 0 {
        RetryState::Attempting
    } else {
        retry_next(retry_run(es.drop_last()), es.last())
    }
}

/// The events `es` are those of one call that returned as soon as the
/// protocol finished: it finishes with the last event and not before.
pub open spec fn finished_call<T>(es: Seq<RetryEvent<T>>) -> bool {
    &&& retry_run(es) is Done
    &&& forall|k: int| 0 <= k < es.len() ==> !(#[trigger] retry_run(es.subrange(0, k)) is Done)
}

/// Event `e` is allowed when each attempt returns a result that `attempt`
/// allows and each login round ends in a result that `login` allows.
pub open spec fn event_by<T>(
    e: RetryEvent<T>,
    attempt: spec_fn(SatoriResult<T>) -> bool,
    login: spec_fn(SatoriResult<String>) -> bool,
) -> bool {
    match e {
        RetryEvent::Attempted(a) => attempt(a),
        RetryEvent::LoggedIn(Some(x)) => login(x),
        RetryEvent::LoggedIn(None) => true,
    }
}

/// Every event of `es` is allowed (see `event_by`).
pub open spec fn runs_by<T>(
    es: Seq<RetryEvent<T>>,
    attempt: spec_fn(SatoriResult<T>) -> bool,
    login: spec_fn(SatoriResult<String>) -> bool,
) -> bool {
    forall|i: int| 0 <= i < es.len() ==> #[trigger] event_by(es[i], attempt, login)
}

/// `r` is what one call returns on some finished run in which every attempt
/// returned a result that `attempt` allows and every login round ended in a
/// result that `login` allows.
pub open spec fn retried_by<T>(
    r: SatoriResult<T>,
    attempt: spec_fn(SatoriResult<T>) -> bool,
    login: spec_fn(SatoriResult<String>) -> bool,
) -> bool {
    exists|es: Seq<RetryEvent<T>>|
        #![trigger retry_run(es)]
        finished_call(es) && retry_run(es) == RetryState::Done(r) && runs_by(es, attempt, login)
}

/// Extending a run by one event takes one step and keeps the earlier
/// prefixes.
pub proof fn lemma_run_push<T>(es: Seq<RetryEvent<T>>, e: RetryEvent<T>)
    ensures
        retry_run(es.push(e)) == retry_next(retry_run(es), e),
        forall|k: int| 0 <= k <= es.len() ==> #[trigger] es.push(e).subrange(0, k) == es.subrange(0, k),
        es.push(e).subrange(0, es.len() + 1 as int) == es.push(e),
{
    assert(es.push(e).subrange(0, es.len() + 1 as int) =~= es.push(e));
    assert(es.push(e).drop_last() =~= es);
    assert forall|k: int| 0 <= k <= es.len() implies #[trigger] es.push(e).subrange(0, k) == es.subrange(0, k) by {
        assert(es.push(e).subrange(0, k) =~= es.subrange(0, k));
    }
}

/// After an expired session and a successful login, the operation is issued
/// again, and its second result, not the first, is what the caller gets; the
/// call then makes no further attempt.
pub proof fn lemma_reissue_after_login<T>(es: Seq<RetryEvent<T>>, username: String, second: SatoriResult<T>)
    requires
        es.len() >= 3,
        es[0] == RetryEvent::<T>::Attempted(Err(SatoriError::NotLoggedIn)),
        es[1] == RetryEvent::<T>::LoggedIn(Some(Ok(username))),
        es[2] == RetryEvent::<T>::Attempted(second),
        !(second matches Err(SatoriError::NotLoggedIn)),
        finished_call(es),
    ensures
        es.len() == 3,
        retry_run(es) == RetryState::Done(second),
{
    assert(es.subrange(0, 0).len() == 0);
    assert(es.subrange(0, 1).drop_last() =~= es.subrange(0, 0));
    assert(es.subrange(0, 2).drop_last() =~= es.subrange(0, 1));
    assert(es.subrange(0, 3).drop_last() =~= es.subrange(0, 2));
    assert(retry_run(es.subrange(0, 1)) == RetryState::<T>::AwaitingLogin);
    assert(retry_run(es.subrange(0, 2)) == RetryState::<T>::Attempting);
    assert(retry_run(es.subrange(0, 3)) == RetryState::Done(second));
    if es.len() > 3 {
        assert(!(retry_run(es.subrange(0, 3)) is Done));
    }
    assert(es.subrange(0, 3) =~= es);
}

/// When the operator declines to give credentials after an expired session,
/// the call fails with `LoginFailed` and issues the operation no more.
pub proof fn lemma_decline_ends_call<T>(es: Seq<RetryEvent<T>>)
    requires
        es.len() >= 2,
        es[0] == RetryEvent::<T>::Attempted(Err(SatoriError::NotLoggedIn)),
        es[1] == RetryEvent::<T>::LoggedIn(None),
        finished_call(es),
    ensures
        es.len() == 2,
        retry_run(es) == RetryState::<T>::Done(Err(SatoriError::LoginFailed)),
{
    assert(es.subrange(0, 0).len() == 0);
    assert(es.subrange(0, 1).drop_last() =~= es.subrange(0, 0));
    assert(es.subrange(0, 2).drop_last() =~= es.subrange(0, 1));
    assert(retry_run(es.subrange(0, 1)) == RetryState::<T>::AwaitingLogin);
    assert(retry_run(es.subrange(0, 2)) == RetryState::<T>::Done(Err(SatoriError::LoginFailed)));
    if es.len() > 2 {
        assert(!(retry_run(es.subrange(0, 2)) is Done));
    }
    assert(es.subrange(0, 2) =~= es);
}

/// A first result other than an expired session is returned unchanged,
/// after one attempt and without any login.
pub proof fn lemma_first_result_returned<T>(es: Seq<RetryEvent<T>>, r: SatoriResult<T>)
    requires
        es.len() >= 1,
        es[0] == RetryEvent::<T>::Attempted(r),
        !(r matches Err(SatoriError::NotLoggedIn)),
        finished_call(es),
    ensures
        es.len() == 1,
        retry_run(es) == RetryState::Done(r),
{
    assert(es.subrange(0, 0).len() == 0);
    assert(es.subrange(0, 1).drop_last() =~= es.subrange(0, 0));
    assert(es.subrange(0, 1).last() == es[0]);
    assert(retry_run(es.subrange(0, 0)) == RetryState::<T>::Attempting);
    assert(attempt_step(r) == AttemptStep::Finish(r));
    assert(retry_run(es.subrange(0, 1)) == RetryState::Done(r));
    if es.len() > 1 {
        assert(!(retry_run(es.subrange(0, 1)) is Done));
    }
    assert(es.subrange(0, 1) =~= es);
}

/// A refused login leads to another credential prompt, while any other
/// login error ends the call with that error.
pub proof fn lemma_login_error<T>(es: Seq<RetryEvent<T>>, e: SatoriError)
    requires
        es.len() >= 2,
        es[0] == RetryEvent::<T>::Attempted(Err(SatoriError::NotLoggedIn)),
        es[1] == RetryEvent::<T>::LoggedIn(Some(Err(e))),
        finished_call(es),
    ensures
        e is LoginFailed ==> retry_run(es.subrange(0, 2)) == RetryState::<T>::AwaitingLogin,
        !(e is LoginFailed || e is NotLoggedIn) ==> es.len() == 2 && retry_run(es)
            == RetryState::<T>::Done(Err(e)),
{
    assert(es.subrange(0, 0).len() == 0);
    assert(es.subrange(0, 1).drop_last() =~= es.subrange(0, 0));
    assert(es.subrange(0, 2).drop_last() =~= es.subrange(0, 1));
    assert(retry_run(es.subrange(0, 1)) == RetryState::<T>::AwaitingLogin);
    if !(e is LoginFailed || e is NotLoggedIn) {
        assert(retry_run(es.subrange(0, 2)) == RetryState::<T>::Done(Err(e)));
        if es.len() > 2 {
            assert(!(retry_run(es.subrange(0, 2)) is Done));
        }
        assert(es.subrange(0, 2) =~= es);
    }
}

/// Where a finished run's result comes from, step by step.
proof fn lemma_run_origin<T>(
    es: Seq<RetryEvent<T>>,
    attempt: spec_fn(SatoriResult<T>) -> bool,
    login: spec_fn(SatoriResult<String>) -> bool,
)
    requires
        runs_by(es, attempt, login),
    ensures
        retry_run(es) matches RetryState::Done(x) ==> attempt(x) || x matches Err(
            SatoriError::LoginFailed,
        ) || (x matches Err(e) && login(Err(e))),
    decreases es.len(),
{
    if es.len() > 0 {
        let init = es.drop_last();
        assert forall|i: int| 0 <= i < init.len() implies #[trigger] event_by(init[i], attempt, login) by {
            assert(init[i] == es[i]);
        }
        lemma_run_origin(init, attempt, login);
        assert(event_by(es[es.len() - 1], attempt, login));
    }
}

/// No result is made up: what one call returns is a result of an attempt,
/// the error of a login round, or `LoginFailed` after a declined prompt.
pub proof fn lemma_retried_result_origin<T>(
    r: SatoriResult<T>,
    attempt: spec_fn(SatoriResult<T>) -> bool,
    login: spec_fn(SatoriResult<String>) -> bool,
)
    requires
        retried_by(r, attempt, login),
    ensures
        attempt(r) || r matches Err(SatoriError::LoginFailed) || (r matches Err(e) && login(Err(e))),
{
    let es = choose|es: Seq<RetryEvent<T>>|
        finished_call(es) && retry_run(es) == RetryState::Done(r) && runs_by(es, attempt, login);
    lemma_run_origin(es, attempt, login);
}

} // verus!
