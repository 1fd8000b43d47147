//! Paths as text, and the questions that only `std::path` can answer. What
//! this file states of `std::path` is not proved here.

use vstd::prelude::*;
use std::path::Path;
use std::path::PathBuf;

verus! {

/// The text of the path that `PathBuf::push` makes of a path and a
/// component, by the rules of the platform that the crate is built for.
pub uninterp spec fn path_join(base: Seq<char>, component: Seq<char>) -> Seq<char>;

/// What `Path::ends_with` says of a path and a suffix: whether the last
/// whole components of the path are those of the suffix.
pub uninterp spec fn path_ends_with(path: Seq<char>, suffix: Seq<char>) -> bool;

/// What `Path::extension` finds in a path: the part of the file name after
/// its last dot, if there is one.
pub uninterp spec fn path_extension(path: Seq<char>) -> Option<Seq<char>>;

/// A path with the first `n` components pushed onto it, one after another.
pub open spec fn path_extended(base: Seq<char>, components: Seq<Seq<char>>, n: nat) -> Seq<char>
    decreases n,
{
    if n == 0 || n > components.len() {
        base
    } else {
        path_join(path_extended(base, components, (n - 1) as nat), components[n - 1])
    }
}

/// `PathBuf::push`, on a copy of the path.
#[verifier::external_body]
pub(crate) fn join(base: &str, component: &str) -> (joined: String)
    ensures
        joined@ == path_join(base@, component@),
{
    let mut path = PathBuf::from(base);
    path.push(component);
    path.to_string_lossy().into_owned()
}

/// `Path::ends_with`.
#[verifier::external_body]
pub(crate) fn ends_with(path: &str, suffix: &str) -> (found: bool)
    ensures
        found == path_ends_with(path@, suffix@),
{
    Path::new(path).ends_with(suffix)
}

/// `Path::extension`.
#[verifier::external_body]
pub(crate) fn extension(path: &str) -> (found: Option<String>)
    ensures
        match found {
            Some(text) => path_extension(path@) == Some(text@),
            None => path_extension(path@) is None,
        },
{
    Path::new(path).extension().map(|text| text.to_string_lossy().into_owned())
}

/// `Path::is_dir`: whether the file system holds a directory at the path.
/// The answer belongs to the moment of the call, so nothing is stated of it.
#[verifier::external_body]
pub(crate) fn is_directory(path: &str) -> bool {
    Path::new(path).is_dir()
}

/// `Path::exists`: whether the file system holds anything at the path. The
/// answer belongs to the moment of the call, so nothing is stated of it.
#[verifier::external_body]
pub(crate) fn is_present(path: &str) -> bool {
    Path::new(path).exists()
}

/// The views of a list of texts.
pub open spec fn texts(components: Seq<String>) -> Seq<Seq<char>> {
    Seq::new(components.len(), |i: int| components[i]@)
}

/// Pushes the components onto the path, one after another.
pub fn extend(base: &str, components: &Vec<String>) -> (path: String)
    ensures
        path@ == path_extended(base@, texts(components@), components@.len()),
{
    let mut path = String::from_str(base);
    let mut i: usize = 0;
    while i < components.len()
        invariant
            i <= components.len(),
            path@ == path_extended(base@, texts(components@), i as nat),
        decreases components.len() - i,
    {
        path = join(path.as_str(), components[i].as_str());
        i = i + 1;
    }
    path
}

} // verus!
