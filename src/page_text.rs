//! Rules for reading values out of the text of page elements: the user name
//! in the page header and the fields of a link.

use crate::text::{has_prefix, same_text};
use vstd::prelude::*;
use vstd::string::*;

verus! {

/// `s` with every occurrence of `p` taken out, scanning from the left.
pub open spec fn without(s: Seq<char>, p: Seq<char>) -> Seq<char>
    decreases s.len(),
{
    if s.len() == 0 {
        s
    } else if p.len() > 0 && p.is_prefix_of(s) {
        without(s.subrange(p.len() as int, s.len() as int), p)
    } else {
        seq![s[0]] + without(s.drop_first(), p)
    }
}

/// The number of `sep` characters in `s`.
pub open spec fn separators(s: Seq<char>, sep: char) -> nat
    decreases s.len(),
{
    if s.len() == 0 {
        0
    } else if s.last() == sep {
        separators(s.drop_last(), sep) + 1
    } else {
        separators(s.drop_last(), sep)
    }
}

/// Field `n` of `s` split at `sep`: the characters other than `sep` that
/// follow exactly `n` separators, in order.
pub open spec fn field(s: Seq<char>, sep: char, n: nat) -> Seq<char>
    decreases s.len(),
{
    if s.len() == 0 {
        s
    } else if s.last() != sep && separators(s.drop_last(), sep) == n {
        field(s.drop_last(), sep, n).push(s.last())
    } else {
        field(s.drop_last(), sep, n)
    }
}

/// The text that marks a logged-in user in the page header.
pub open spec fn logged_in_marker() -> Seq<char> {
    "Logged in as "@
}

/// The user named by the header's first item, `None` when it offers to
/// register instead.
pub open spec fn header_user(text: Seq<char>) -> Option<Seq<char>> {
    if text == "Register"@ {
        None
    } else {
        Some(without(text, logged_in_marker()))
    }
}

/// Takes every occurrence of `p` out of `s`.
pub fn remove_all(s: &str, p: &str) -> (r: String)
    ensures
        r@ == without(s@, p@),
{
    let n = s.unicode_len();
    let m = p.unicode_len();
    let mut out = String::new();
    let mut i: usize = 0;
    proof {
        assert(s@.subrange(0, n as int) =~= s@);
        assert(out@ + without(s@, p@) =~= without(s@, p@));
    }
    while i < n
        invariant
            n == s@.len(),
            m == p@.len(),
            i <= n,
            out@ + without(s@.subrange(i as int, n as int), p@) == without(s@, p@),
        decreases n - i,
    {
        let rest = s.substring_char(i, n);
        if m > 0 && has_prefix(rest, p) {
            proof {
                assert(rest@.subrange(m as int, rest@.len() as int) =~= s@.subrange(
                    i + m,
                    n as int,
                ));
            }
            i = i + m;
        } else {
            let c = s.substring_char(i, i + 1);
            proof {
                assert(rest@.drop_first() =~= s@.subrange(i + 1, n as int));
                assert(c@ =~= seq![rest@[0]]);
                assert(out@ + c@ + without(s@.subrange(i + 1, n as int), p@) =~= out@ + without(
                    rest@,
                    p@,
                ));
            }
            out.append(c);
            i = i + 1;
        }
    }
    proof {
        assert(s@.subrange(n as int, n as int).len() == 0);
        assert(out@ + without(s@.subrange(n as int, n as int), p@) =~= out@);
    }
    out
}

/// The user name shown in the trimmed text of the header's first item.
pub fn username_from_header(text: &str) -> (r: Option<String>)
    ensures
        r matches Some(u) ==> header_user(text@) == Some(u@),
        r is None ==> header_user(text@) is None,
{
    proof {
        reveal_strlit("Register");
    }
    if same_text(text, "Register") {
        None
    } else {
        Some(remove_all(text, "Logged in as "))
    }
}

/// Field `n` of `s` split at `sep`, when `s` has at least `n` separators.
pub fn nth_field(s: &str, sep: char, n: usize) -> (r: Option<String>)
    ensures
        separators(s@, sep) >= n ==> (r matches Some(f) && f@ == field(s@, sep, n as nat)),
        separators(s@, sep) < n ==> r is None,
{
    let len = s.unicode_len();
    let mut out = String::new();
    let mut seen: usize = 0;
    let mut i: usize = 0;
    while i < len
        invariant
            len == s@.len(),
            i <= len,
            seen as nat == separators(s@.subrange(0, i as int), sep),
            seen <= i,
            out@ == field(s@.subrange(0, i as int), sep, n as nat),
        decreases len - i,
    {
        let c = s.get_char(i);
        proof {
            assert(s@.subrange(0, i + 1).drop_last() =~= s@.subrange(0, i as int));
            assert(s@.subrange(0, i + 1).last() == c);
        }
        if c == sep {
            seen = seen + 1;
        } else if seen == n {
            let piece = s.substring_char(i, i + 1);
            proof {
                assert(piece@ =~= seq![c]);
                assert(out@ + piece@ =~= out@.push(c));
            }
            out.append(piece);
        }
        i = i + 1;
    }
    proof {
        assert(s@.subrange(0, len as int) =~= s@);
    }
    if seen >= n {
        Some(out)
    } else {
        None
    }
}

} // verus!
