//! Paths, as text, and the lexical operations on them that decide whether a
//! request stays inside the synchronised directory.
//!
//! The operations are those of `std::path` and of `path_clean`, by the path
//! rules of the platform that the library is built for. Each result is named
//! by a function of the texts alone; nothing here touches the file system.

use path_clean::PathClean;
use std::path::Path;
use vstd::prelude::*;

verus! {

/// `rel` adjoined to `base`, as `Path::join` forms it.
pub uninterp spec fn joined_path(base: Seq<char>, rel: Seq<char>) -> Seq<char>;

/// `path` without `.`, doubled separators and resolvable `..` elements, as
/// `path_clean` forms it.
pub uninterp spec fn cleaned_path(path: Seq<char>) -> Seq<char>;

/// Whether `base` is a prefix of `path`, whole components taken, as
/// `Path::starts_with` decides it.
pub uninterp spec fn path_has_prefix(path: Seq<char>, base: Seq<char>) -> bool;

/// `path` without its prefix `base`, as `Path::strip_prefix` forms it.
pub uninterp spec fn path_without_prefix(path: Seq<char>, base: Seq<char>) -> Seq<char>;

/// `Path::join`, on text.
#[verifier::external_body]
pub(crate) fn join_path(base: &str, rel: &str) -> (joined: String)
    ensures
        joined@ == joined_path(base@, rel@),
{
    Path::new(base).join(rel).to_string_lossy().into_owned()
}

/// `PathClean::clean` of `path_clean`, on text.
#[verifier::external_body]
pub(crate) fn clean_path(path: &str) -> (cleaned: String)
    ensures
        cleaned@ == cleaned_path(path@),
{
    Path::new(path).clean().to_string_lossy().into_owned()
}

/// `Path::starts_with`, on text.
#[verifier::external_body]
pub(crate) fn starts_with_path(path: &str, base: &str) -> (under: bool)
    ensures
        under == path_has_prefix(path@, base@),
{
    Path::new(path).starts_with(base)
}

/// `Path::strip_prefix`, on text. It fails exactly where `Path::starts_with`
/// says that `base` is no prefix of `path`.
#[verifier::external_body]
pub(crate) fn strip_path_prefix(path: &str, base: &str) -> (rest: Option<String>)
    ensures
        rest is Some <==> path_has_prefix(path@, base@),
        rest matches Some(r) ==> r@ == path_without_prefix(path@, base@),
{
    match Path::new(path).strip_prefix(base) {
        Ok(rest) => Some(rest.to_string_lossy().into_owned()),
        Err(_) => None,
    }
}

/// The path that a request for `rel` means under the directory `root`:
/// adjoined to the root, then cleaned.
pub open spec fn resolved_path(root: Seq<char>, rel: Seq<char>) -> Seq<char> {
    cleaned_path(joined_path(root, rel))
}

/// Resolves a requested path against the root.
pub fn resolve_path(root: &str, rel: &str) -> (resolved: String)
    ensures
        resolved@ == resolved_path(root@, rel@),
{
    let joined = join_path(root, rel);
    clean_path(joined.as_str())
}

/// Whether `path` lies outside the directory `dir`.
pub fn path_escapes_dir(path: &str, dir: &str) -> (escapes: bool)
    ensures
        escapes == !path_has_prefix(path@, dir@),
{
    !starts_with_path(path, dir)
}

} // verus!
