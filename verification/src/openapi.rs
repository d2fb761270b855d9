//! Route-prefix helpers for grouping API routes under a common path.

use vstd::prelude::*;

use crate::text::{chars_of, owned};

verus! {

/// The path of a route under a prefix: the root path `/` becomes the prefix
/// itself, and any other path is appended to it.
pub open spec fn prefixed(prefix: Seq<char>, path: Seq<char>) -> Seq<char> {
    if path == seq!['/'] {
        prefix
    } else {
        prefix + path
    }
}

/// Places a route path under a prefix: `with_prefix("/todos", "/")` is
/// `"/todos"` and `with_prefix("/todos", "/activity")` is `"/todos/activity"`.
pub fn with_prefix(prefix: &str, path: &str) -> (r: String)
    ensures
        r@ == prefixed(prefix@, path@),
{
    let chars = chars_of(path);
    if chars.len() == 1 && chars[0] == '/' {
        assert(path@ == seq!['/']);
        owned(prefix)
    } else {
        let mut r = owned(prefix);
        r.append(path);
        r
    }
}

} // verus!
