//! The part of a request's path that names an import.
use vstd::prelude::*;

verus! {

/// The id of the import that a request's path names (`/imports/:id/...`).
#[derive(Clone, Copy, Debug, PartialEq, Eq, Structural)]
pub struct ImportRequestPath {
    id: i32,
}

impl ImportRequestPath {
    /// The import id in the path.
    pub closed spec fn import_id(self) -> i32 {
        self.id
    }

    /// The path that names the import `id`.
    pub fn new(id: i32) -> (r: ImportRequestPath)
        ensures
            r.import_id() == id,
    {
        ImportRequestPath { id }
    }

    /// The import id in the path.
    pub fn id(&self) -> (r: i32)
        ensures
            r == self.import_id(),
    {
        self.id
    }
}

} // verus!
