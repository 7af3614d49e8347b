//! Joining file-system paths, as text.

pub mod names;

use vstd::prelude::*;

use crate::text;

verus! {

broadcast use vstd::string::group_string_axioms;

/// The path is absolute.
pub open spec fn is_absolute(path: Seq<char>) -> bool {
    path.len() > 0 && path[0] == '/'
}

/// `path` below `base`: an absolute `path` stands alone, otherwise one
/// separator stands between the two.
pub open spec fn joined(base: Seq<char>, path: Seq<char>) -> Seq<char> {
    if is_absolute(path) {
        path
    } else if base.len() == 0 || base.last() == '/' {
        base + path
    } else {
        base.push('/') + path
    }
}

/// `path` below `base`.
pub fn join(base: &str, path: &str) -> (r: String)
    ensures
        r@ == joined(base@, path@),
{
    let cs = text::chars_of(path);
    if cs.len() > 0 && cs[0] == '/' {
        return path.to_owned();
    }
    let bs = text::chars_of(base);
    let mut r = base.to_owned();
    if bs.len() > 0 && bs[bs.len() - 1] != '/' {
        r.push('/');
    }
    r.append(path);
    r
}

} // verus!
