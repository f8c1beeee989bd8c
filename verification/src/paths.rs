//! Joining a base directory and a relative document URI.

use vstd::prelude::*;
use vstd::string::*;

verus! {

/// The path that `relative` names when it is read against `base`, with `/`
/// as the separator: a `relative` that starts with `/` stands alone;
/// otherwise it follows `base`, with one `/` between them unless `base` is
/// empty or already ends with one.
pub open spec fn joined(base: Seq<char>, relative: Seq<char>) -> Seq<char> {
    if relative.len() > 0 && relative[0] == '/' {
        relative
    } else if base.len() == 0 || base.last() == '/' {
        base + relative
    } else {
        base + seq!['/'] + relative
    }
}

/// Joins `relative` to `base`.
pub fn join_path(base: &str, relative: &str) -> (path: String)
    ensures
        path@ == joined(base@, relative@),
{
    let relative_len: usize = relative.unicode_len();
    if relative_len > 0 && relative.get_char(0) == '/' {
        return String::from_str(relative);
    }
    let base_len: usize = base.unicode_len();
    let mut path = String::from_str(base);
    if base_len > 0 && base.get_char(base_len - 1) != '/' {
        proof {
            reveal_strlit("/");
        }
        path.append("/");
        assert(path@ == base@ + seq!['/']);
    }
    path.append(relative);
    path
}

/// A relative URI is resolved below its base: the joined path starts with
/// the base and ends with the URI.
pub proof fn joined_keeps_both_parts(base: Seq<char>, relative: Seq<char>)
    requires
        relative.len() == 0 || relative[0] != '/',
    ensures
        base.is_prefix_of(joined(base, relative)),
        relative.is_suffix_of(joined(base, relative)),
{
    let path = joined(base, relative);
    assert(path.subrange(0, base.len() as int) == base);
    assert(path.subrange(path.len() - relative.len(), path.len() as int) == relative);
}

} // verus!
