//! Paths as text: joining, and the name of the directory that holds a file.

use std::path::Path;
use vstd::prelude::*;
use vstd::string::{StrSliceExecFns, StringExecFns};

verus! {

/// A path that starts at the root of the file system.
pub open spec fn is_absolute(path: Seq<char>) -> bool {
    path.len() > 0 && path[0] == '/'
}

/// Whether a `/` has to stand between `base` and what is joined to it.
pub open spec fn needs_separator(base: Seq<char>) -> bool {
    base.len() > 0 && base.last() != '/'
}

/// `base` with `rel` adjoined. An absolute `rel` takes the place of `base`.
pub open spec fn joined(base: Seq<char>, rel: Seq<char>) -> Seq<char> {
    if is_absolute(rel) {
        rel
    } else if needs_separator(base) {
        base + seq!['/'] + rel
    } else {
        base + rel
    }
}

/// Joins `rel` to `base`.
pub fn join(base: &str, rel: &str) -> (path: String)
    ensures
        path@ == joined(base@, rel@),
{
    let rel_len: usize = rel.unicode_len();
    if rel_len > 0 && rel.get_char(0) == '/' {
        return String::from_str(rel);
    }
    let base_len: usize = base.unicode_len();
    let mut path = String::from_str(base);
    if base_len > 0 && base.get_char(base_len - 1) != '/' {
        proof {
            reveal_strlit("/");
            assert("/"@ =~= seq!['/']);
        }
        path.append("/");
    }
    path.append(rel);
    path
}

/// A relative path joined to a base starts with the base.
pub proof fn lemma_joined_has_prefix(base: Seq<char>, rel: Seq<char>)
    requires
        !is_absolute(rel),
    ensures
        base.is_prefix_of(joined(base, rel)),
{
    if needs_separator(base) {
        assert(base + seq!['/'] + rel =~= base + (seq!['/'] + rel));
    }
}

/// Two different relative paths joined to one base give different paths.
pub proof fn lemma_joined_is_injective(base: Seq<char>, a: Seq<char>, b: Seq<char>)
    requires
        !is_absolute(a),
        !is_absolute(b),
        a != b,
    ensures
        joined(base, a) != joined(base, b),
{
    let head = if needs_separator(base) {
        base + seq!['/']
    } else {
        base
    };
    let n = head.len() as int;
    assert(joined(base, a) =~= head + a);
    assert(joined(base, b) =~= head + b);
    if head + a == head + b {
        assert((head + a).subrange(n, n + a.len()) =~= a);
        assert((head + b).subrange(n, n + b.len()) =~= b);
        assert(a.len() == b.len());
        assert(a == b);
    }
}

/// What `std::path::Path::parent` returns for a path, as text.
pub uninterp spec fn parent_of(path: Seq<char>) -> Option<Seq<char>>;

/// What `std::path::Path::file_name` returns for a path, as text.
pub uninterp spec fn file_name_of(path: Seq<char>) -> Option<Seq<char>>;

/// The name of the directory that holds the file at `path`: the final
/// component of the path's parent, if the path has a parent with a name.
pub open spec fn parent_final_component(path: Seq<char>) -> Option<Seq<char>> {
    match parent_of(path) {
        Some(directory) => file_name_of(directory),
        None => None,
    }
}

/// Calls `std::path::Path::parent`: the path without its final component,
/// or nothing where the path ends in a root or is empty. All that is
/// claimed is that the result is the one named `parent_of` for this text.
#[verifier::external_body]
fn parent(path: &str) -> (parent: Option<String>)
    ensures
        match parent {
            Some(directory) => parent_of(path@) == Some(directory@),
            None => parent_of(path@) is None,
        },
{
    Path::new(path).parent().and_then(Path::to_str).map(String::from)
}

/// Calls `std::path::Path::file_name`: the final component of the path, or
/// nothing where the path ends in `..` or has no component. All that is
/// claimed is that the result is the one named `file_name_of` for this text.
#[verifier::external_body]
fn file_name(path: &str) -> (name: Option<String>)
    ensures
        match name {
            Some(component) => file_name_of(path@) == Some(component@),
            None => file_name_of(path@) is None,
        },
{
    Path::new(path).file_name().and_then(|name| name.to_str()).map(String::from)
}

/// The name of the directory that holds the file at `path`.
pub fn final_component_of_parent(path: &str) -> (component: Option<String>)
    ensures
        match component {
            Some(name) => parent_final_component(path@) == Some(name@),
            None => parent_final_component(path@) is None,
        },
{
    match parent(path) {
        Some(directory) => file_name(directory.as_str()),
        None => None,
    }
}

} // verus!
