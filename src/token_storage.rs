//! Durable storage of the session token.

use vstd::prelude::*;

verus! {

/// Keeps the session token between runs.
pub trait TokenStorage {
    fn load_token(&self) -> Option<String>;

    fn save_token(&self, token: &str);

    fn clear_token(&self);
}

/// The token held by stored contents: empty contents hold none.
pub fn token_from_contents(contents: String) -> (r: Option<String>)
    ensures
        contents@.len() == 0 ==> r is None,
        contents@.len() > 0 ==> r == Some(contents),
{
    if contents.as_str().is_empty() {
        None
    } else {
        Some(contents)
    }
}

} // verus!
