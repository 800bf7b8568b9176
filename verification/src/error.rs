//! What can go wrong in the store.

use vstd::prelude::*;

verus! {

/// A failure that ends a load or a save. Each carries the message of its
/// cause. A workspace file that cannot be understood is no failure: it is
/// set aside, and the load reports that there is no workspace.
#[derive(Clone, Debug, PartialEq, Eq)]
pub enum StoreError {
    /// The storage directory could not be found or made.
    PathResolution(String),
    /// A file could not be read, written or renamed.
    Io(String),
    /// The workspace could not be turned into text.
    Encode(String),
}

impl StoreError {
    /// The message of the cause.
    pub open spec fn text(&self) -> Seq<char> {
        match self {
            StoreError::PathResolution(m) => m@,
            StoreError::Io(m) => m@,
            StoreError::Encode(m) => m@,
        }
    }

    /// The message of the cause.
    pub fn message(&self) -> (m: String)
        ensures
            m@ == self.text(),
    {
        match self {
            StoreError::PathResolution(m) => m.clone(),
            StoreError::Io(m) => m.clone(),
            StoreError::Encode(m) => m.clone(),
        }
    }
}

} // verus!
