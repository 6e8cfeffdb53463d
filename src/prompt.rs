//! Asking the operator for credentials or for a choice.

use vstd::prelude::*;

verus! {

/// Interaction with the operator; `None` means the operator declined.
pub trait Prompt {
    fn ask_for_credentials(&self) -> Option<(String, String)>;

    /// Returns the index of the chosen option.
    fn choose_option(&self, message: &str, options: &Vec<String>) -> Option<usize>;
}

/// Turns a choice numbered from one, as an operator types it, into an index
/// among `count` options.
pub fn option_index(choice: usize, count: usize) -> (r: Option<usize>)
    ensures
        r == (if 0 < choice <= count { Some((choice - 1) as usize) } else { None::<usize> }),
{
    if choice > 0 && choice <= count {
        Some(choice - 1)
    } else {
        None
    }
}

} // verus!
