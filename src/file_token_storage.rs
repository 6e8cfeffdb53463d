//! Where the session token is kept on disk: a path, with a leading `~`
//! standing for the home directory.

use vstd::prelude::*;

verus! {

/// `r` is what tilde expansion may make of `p`: a leading `~`, alone or
/// before a path separator (`/`, or `\` where that separates paths), may
/// become some home directory; anything else stays as it is.
pub open spec fn tilde_expanded(p: Seq<char>, r: Seq<char>) -> bool {
    let expandable = p.len() > 0 && p[0] == '~' && (p.len() == 1 || p[1] == '/' || p[1] == '\\');
    &&& !expandable ==> r == p
    &&& expandable ==> r == p || p.drop_first().is_suffix_of(r)
}

/// Relies on `shellexpand::tilde`: it replaces a leading `~` that stands
/// alone, before `/`, or (on Windows) before `\`, with the home directory
/// when one is known, and otherwise returns its input.
#[verifier::external_body]
fn expand_tilde(path: &str) -> (r: String)
    ensures
        tilde_expanded(path@, r@),
{
    shellexpand::tilde(path).to_string()
}

/// The place of the token file in the user's data directory.
pub const DEFAULT_TOKEN_PATH: &'static str = "~/.local/share/satori-cli/token.txt";

/// The location of a file that holds the session token.
pub struct FileTokenStorage {
    path: String,
}

impl FileTokenStorage {
    /// The token file at its usual place.
    pub fn default() -> (r: FileTokenStorage)
        ensures
            tilde_expanded(DEFAULT_TOKEN_PATH@, r.path_view()),
    {
        FileTokenStorage::new(DEFAULT_TOKEN_PATH)
    }

    /// The token file at `path`, with a leading `~` expanded.
    pub fn new(path: &str) -> (r: FileTokenStorage)
        ensures
            tilde_expanded(path@, r.path_view()),
    {
        FileTokenStorage { path: expand_tilde(path) }
    }

    /// The characters of the file's path.
    pub closed spec fn path_view(&self) -> Seq<char> {
        self.path@
    }

    /// The file's path.
    pub fn path(&self) -> (r: &str)
        ensures
            r@ == self.path_view(),
    {
        self.path.as_str()
    }
}

} // verus!
