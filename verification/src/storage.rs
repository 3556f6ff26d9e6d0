//! Where the suggestions are kept.

use vstd::prelude::*;
use vstd::string::{StrSliceExecFns, StringExecFns};

verus! {

/// The scheme that a database address starts with.
pub open spec fn sqlite_scheme() -> Seq<char> {
    "sqlite://"@
}

/// The address of the database at `path`: the path itself where it already
/// names the scheme, else the path behind the scheme.
pub open spec fn database_address(path: Seq<char>) -> Seq<char> {
    if sqlite_scheme().is_prefix_of(path) {
        path
    } else {
        sqlite_scheme() + path
    }
}

/// Tells whether `text` begins with `prefix`.
pub fn has_prefix(text: &str, prefix: &str) -> (found: bool)
    ensures
        found == prefix@.is_prefix_of(text@),
{
    let wanted: usize = prefix.unicode_len();
    if text.unicode_len() < wanted {
        return false;
    }
    let mut i: usize = 0;
    while i < wanted
        invariant
            i <= wanted,
            wanted == prefix@.len(),
            wanted <= text@.len(),
            forall|j: int| 0 <= j < i ==> text@[j] == prefix@[j],
        decreases wanted - i,
    {
        if text.get_char(i) != prefix.get_char(i) {
            return false;
        }
        i = i + 1;
    }
    assert(prefix@ =~= text@.subrange(0, prefix@.len() as int));
    true
}

/// The address under which the database at `path` is opened.
pub fn database_url(path: &str) -> (url: String)
    ensures
        url@ == database_address(path@),
{
    if has_prefix(path, "sqlite://") {
        String::from_str(path)
    } else {
        let mut url = String::from_str("sqlite://");
        url.append(path);
        url
    }
}

} // verus!
