//! Relative paths, as the `pathdiff` crate computes them.

use vstd::prelude::*;

verus! {

/// The path that leads from the directory `base` to `path`, where there is
/// one: what `pathdiff::diff_paths` returns for the two, under the path
/// syntax of the platform the library is built for.
pub uninterp spec fn relative_path(path: Seq<char>, base: Seq<char>) -> Option<Seq<char>>;

/// The text that an optional string holds.
pub open spec fn option_text(text: Option<String>) -> Option<Seq<char>> {
    match text {
        Some(t) => Some(t@),
        None => None,
    }
}

/// `pathdiff::diff_paths`: the relative path from `base` to `path`. Not
/// proved: the contract only gives the crate's result its name.
#[verifier::external_body]
pub(crate) fn diff_paths(path: &str, base: &str) -> (r: Option<String>)
    ensures
        option_text(r) == relative_path(path@, base@),
{
    pathdiff::diff_paths(path, base).map(|p| p.to_string_lossy().into_owned())
}

} // verus!
