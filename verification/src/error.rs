//! The failures that the tree operations report.

use vstd::prelude::*;

verus! {

/// Why an operation on the tree did not go through.
#[derive(Clone, Copy, Debug, PartialEq, Eq, Structural)]
pub enum DbError {
    /// No node has the id, or the node belongs to another owner.
    NotFound,
    /// A directory was needed and a file was found, or the reverse.
    TypeMismatch,
    /// The store is at fault: it could not be reached, or it handed back a
    /// document that no node can be.
    StoreFailure,
}

impl DbError {
    /// The sentence that goes with the failure.
    pub open spec fn spec_message(self) -> Seq<char> {
        match self {
            DbError::NotFound => "Directory could not be found"@,
            DbError::TypeMismatch => "Cant add a file to a file! Must be a directory"@,
            DbError::StoreFailure => "The store failed"@,
        }
    }

    pub fn message(&self) -> (text: String)
        ensures
            text@ == self.spec_message(),
    {
        match self {
            DbError::NotFound => "Directory could not be found".to_owned(),
            DbError::TypeMismatch => "Cant add a file to a file! Must be a directory".to_owned(),
            DbError::StoreFailure => "The store failed".to_owned(),
        }
    }
}

} // verus!
