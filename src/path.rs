//! Joining of path components, following how a Unix path buffer pushes a
//! component onto its end.

use vstd::prelude::*;

verus! {

/// Whether `p` is absolute, that is starts with a separator.
pub open spec fn is_absolute(p: Seq<char>) -> bool {
    p.len() > 0 && p[0] == '/'
}

/// Whether `p` ends with a separator.
pub open spec fn ends_with_separator(p: Seq<char>) -> bool {
    p.len() > 0 && p[p.len() - 1] == '/'
}

/// Whether `s` holds no separator.
pub open spec fn no_separator(s: Seq<char>) -> bool {
    forall|i: int| 0 <= i < s.len() ==> s[i] != '/'
}

/// Whether `s` is a usable single path segment: non-empty, without separators.
pub open spec fn is_segment(s: Seq<char>) -> bool {
    s.len() > 0 && no_separator(s)
}

/// `base` with `p` pushed onto it: an absolute `p` replaces `base`; otherwise
/// `p` is appended, with a separator in between unless `base` is empty or
/// already ends with one.
pub open spec fn pushed(base: Seq<char>, p: Seq<char>) -> Seq<char> {
    if is_absolute(p) {
        p
    } else if base.len() == 0 || ends_with_separator(base) {
        base + p
    } else {
        base + seq!['/'] + p
    }
}

/// Pushes `p` onto the path `base`.
pub fn push_path(base: &str, p: &str) -> (r: String)
    ensures
        r@ == pushed(base@, p@),
{
    let plen = p.unicode_len();
    if plen > 0 && p.get_char(0) == '/' {
        return p.to_string();
    }
    let blen = base.unicode_len();
    let mut r = base.to_string();
    if blen > 0 && base.get_char(blen - 1) != '/' {
        r.append("/");
    }
    r.append(p);
    proof {
        reveal_strlit("/");
    }
    r
}

} // verus!
