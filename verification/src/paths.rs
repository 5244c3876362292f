//! Paths as strings, with `/` between their parts.

use vstd::prelude::*;
use vstd::string::StringExecFns;
use crate::text::{join2, replace, replaced};

verus! {

/// `rel` seen from `base`: `rel` itself where it starts at the root, else
/// `base` and `rel` with one `/` between them.
pub open spec fn joined(base: Seq<char>, rel: Seq<char>) -> Seq<char> {
    if rel.len() > 0 && rel[0] == '/' {
        rel
    } else if base.len() == 0 || base.last() == '/' {
        base + rel
    } else {
        base + seq!['/'] + rel
    }
}

/// Joins `rel` to `base`.
pub fn join(base: &str, rel: &str) -> (r: String)
    ensures
        r@ == joined(base@, rel@),
{
    let base_len = base.unicode_len();
    if rel.unicode_len() > 0 && rel.get_char(0) == '/' {
        String::from_str(rel)
    } else if base_len == 0 || base.get_char(base_len - 1) == '/' {
        join2(base, rel)
    } else {
        proof {
            reveal_strlit("/");
            assert("/"@ =~= seq!['/']);
        }
        join2(base, "/").concat(rel)
    }
}

/// A path as it is shown to the user: doubled slashes become one, and every
/// backslash, doubled or not, becomes a slash.
pub open spec fn displayed(path: Seq<char>) -> Seq<char> {
    replaced(replaced(replaced(path, "//"@, "/"@), "\\\\"@, "/"@), "\\"@, "/"@)
}

/// Writes a path with forward slashes only.
pub fn display_path(path: &str) -> (r: String)
    ensures
        r@ == displayed(path@),
{
    let path = replace(path, "//", "/");
    let path = replace(path.as_str(), "\\\\", "/");
    replace(path.as_str(), "\\", "/")
}

/// What is said of a directory that was given on the command line: nothing
/// where it exists, else that it does not.
pub fn is_valid_path(v: String, exists: bool) -> (r: Result<(), String>)
    ensures
        exists ==> r is Ok,
        !exists ==> r is Err && r->Err_0@ == "The directory "@ + v@ + " does not exist"@,
{
    if exists {
        Ok(())
    } else {
        Err(join2("The directory ", v.as_str()).concat(" does not exist"))
    }
}

} // verus!
