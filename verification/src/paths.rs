//! Path containment and normalization.
//!
//! The project directory must live inside the root directory; the part of
//! the project path below the root, with a single leading separator
//! removed, names the project inside the root filesystem. Paths here use
//! `/` as the separator.

use vstd::prelude::*;

verus! {

/// Whether `prefix` is a leading piece of `path`.
pub open spec fn is_path_prefix(path: Seq<char>, prefix: Seq<char>) -> bool {
    path.len() >= prefix.len() && path.subrange(0, prefix.len() as int) == prefix
}

/// `s` with one leading separator removed, if it starts with one.
pub open spec fn strip_leading_separator(s: Seq<char>) -> Seq<char> {
    if s.len() > 0 && s[0] == '/' {
        s.skip(1)
    } else {
        s
    }
}

/// Whether `path` starts with `prefix`.
pub fn starts_with_path(path: &String, prefix: &String) -> (r: bool)
    ensures
        r == is_path_prefix(path@, prefix@),
{
    let n = prefix.as_str().unicode_len();
    let m = path.as_str().unicode_len();
    if m < n {
        return false;
    }
    let sub = path.as_str().substring_char(0, n);
    let sub_string = String::from_str(sub);
    sub_string == *prefix
}

/// The project directory relative to the root directory: the part below the
/// root with a leading separator removed, or nothing when the project
/// directory lies outside the root.
pub fn project_relative_path(root_dir: &String, project_dir: &String) -> (r: Option<String>)
    ensures
        r is Some <==> is_path_prefix(project_dir@, root_dir@),
        r matches Some(p) ==> p@ == strip_leading_separator(
            project_dir@.skip(root_dir@.len() as int),
        ),
{
    if !starts_with_path(project_dir, root_dir) {
        return None;
    }
    let n = root_dir.as_str().unicode_len();
    let m = project_dir.as_str().unicode_len();
    let rel = project_dir.as_str().substring_char(n, m);
    proof {
        assert(rel@ =~= project_dir@.skip(root_dir@.len() as int));
    }
    if rel.unicode_len() > 0 && rel.get_char(0) == '/' {
        let stripped = rel.substring_char(1, rel.unicode_len());
        Some(String::from_str(stripped))
    } else {
        Some(String::from_str(rel))
    }
}

/// `base`, a separator, and `segment`, in one path.
pub fn join_path(base: &String, segment: &str) -> (r: String)
    ensures
        r@ == base@ + "/"@ + segment@,
{
    let mut joined = base.clone();
    joined.append("/");
    joined.append(segment);
    joined
}

} // verus!
