//! Where a configuration file lies: below a directory that the platform names.

use crate::text::copy_strings;
use std::path::PathBuf;
use vstd::prelude::*;

verus! {

/// `std::path::PathBuf`. A directory that the platform reports is carried as it came;
/// nothing here looks inside one.
#[verifier::external_type_specification]
#[verifier::external_body]
pub struct ExPathBuf(PathBuf);

/// `PathBuf::clone` returns a path equal to the one it was given.
pub assume_specification[ <PathBuf as Clone>::clone ](path: &PathBuf) -> (copy: PathBuf)
    ensures
        copy == *path,
;

/// A file's location: a directory, and the names that lead from it down to the file,
/// outermost first.
#[derive(Debug, PartialEq, Eq)]
pub struct ConfigPath {
    /// The directory the location starts from, as the platform reported it.
    pub base: PathBuf,
    /// The names below `base`, the file's own name last.
    pub segments: Vec<String>,
}

/// The mathematical value of a [`ConfigPath`].
pub struct ConfigPathView {
    pub base: PathBuf,
    pub segments: Seq<Seq<char>>,
}

impl View for ConfigPath {
    type V = ConfigPathView;

    open spec fn view(&self) -> ConfigPathView {
        ConfigPathView { base: self.base, segments: self.segments.deep_view() }
    }
}

impl Clone for ConfigPath {
    fn clone(&self) -> (copy: ConfigPath)
        ensures
            copy@ == self@,
    {
        ConfigPath { base: self.base.clone(), segments: copy_strings(&self.segments) }
    }
}

/// The values of a list of locations, one by one.
pub open spec fn paths_view(paths: Seq<ConfigPath>) -> Seq<ConfigPathView> {
    Seq::new(paths.len(), |i: int| paths[i]@)
}

} // verus!
