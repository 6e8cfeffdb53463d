//! Presenting outcomes to the operator.

use crate::satori::{Contest, Problem, ResultDetails, SatoriError, SatoriResult, ShortResult};
use crate::text::same_text;
use vstd::prelude::*;

verus! {

/// Shows the outcome of each operation.
pub trait SatoriDisplay {
    fn display_username(&self, username: &SatoriResult<String>);

    fn display_contests(&self, contests: &SatoriResult<Vec<Contest>>);

    fn display_details(&self, details: &SatoriResult<ResultDetails>);

    fn display_login(&self, login: &SatoriResult<String>);

    fn display_logout(&self, logout: &SatoriResult<()>);

    fn display_problems(&self, problems: &SatoriResult<Vec<Problem>>);

    fn display_pdf(&self, pdf: &SatoriResult<()>);

    fn display_results(&self, results: &SatoriResult<Vec<ShortResult>>);

    fn display_status(&self, status: &SatoriResult<String>);

    fn display_submit(&self, submit: &SatoriResult<()>);

    fn display_error(&self, error: &SatoriError);
}

/// How a verdict reads at a glance.
#[derive(Debug, Clone, Copy, PartialEq, Eq, Structural)]
pub enum StatusTone {
    /// Accepted.
    Good,
    /// Still waiting to be judged.
    Pending,
    /// Any other verdict.
    Bad,
}

/// How a verdict is shown: accepted (OK) as good, queued (QUE) as waiting,
/// the rest as bad.
pub open spec fn tone_of(status: Seq<char>) -> StatusTone {
    if status == "OK"@ {
        StatusTone::Good
    } else if status == "QUE"@ {
        StatusTone::Pending
    } else {
        StatusTone::Bad
    }
}

/// Classifies a verdict for display.
pub fn status_tone(status: &str) -> (r: StatusTone)
    ensures
        r == tone_of(status@),
{
    if same_text(status, "OK") {
        StatusTone::Good
    } else if same_text(status, "QUE") {
        StatusTone::Pending
    } else {
        StatusTone::Bad
    }
}

} // verus!
