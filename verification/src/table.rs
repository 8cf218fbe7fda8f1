//! A table on disk, known by its path.

use std::path::PathBuf;
use vstd::prelude::*;

verus! {

/// `std::path::PathBuf`, carried through as it is.
#[verifier::external_type_specification]
#[verifier::external_body]
pub struct ExPathBuf(PathBuf);

/// `clone` of a `PathBuf` gives an equal path.
pub assume_specification[ <PathBuf as Clone>::clone ](path: &PathBuf) -> (copy: PathBuf)
    ensures
        copy == *path,
;

/// `PathBuf::new` gives a path; nothing is stated of it.
pub assume_specification[ PathBuf::new ]() -> (path: PathBuf);

/// A table on disk, known by its path.
#[derive(Debug)]
pub struct Table {
    path: PathBuf,
}

impl Table {
    /// The path of the table.
    pub closed spec fn path(&self) -> PathBuf {
        self.path
    }

    /// The table at `path`.
    pub fn load(path: PathBuf) -> (table: Self)
        ensures
            table.path() == path,
    {
        Self { path }
    }

    /// A copy of the path of the table.
    pub fn get_path(&self) -> (path: PathBuf)
        ensures
            path == self.path(),
    {
        self.path.clone()
    }
}

impl Default for Table {
    fn default() -> (table: Table) {
        Table { path: PathBuf::new() }
    }
}

} // verus!
