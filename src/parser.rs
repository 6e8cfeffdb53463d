//! Turning page bodies into entities.

use crate::satori::{Contest, Problem, ResultDetails, ShortResult};
use vstd::prelude::*;

verus! {

/// Extracts entities from a page body; `None` means that the page lacks the
/// expected structure.
pub trait SatoriParser {
    fn find_username(&self, page: &str) -> Option<String>;

    fn find_joined_contests(&self, page: &str) -> Option<Vec<Contest>>;

    fn find_problems(&self, page: &str) -> Option<Vec<Problem>>;

    fn find_details(&self, page: &str) -> Option<ResultDetails>;

    fn find_results(&self, page: &str) -> Option<Vec<ShortResult>>;
}

} // verus!
