//! The errors of metadata operations.

use vstd::prelude::*;

use crate::entity::CommitOp;

verus! {

/// What can go wrong in a metadata operation.
#[derive(Clone, Debug)]
pub enum MetaError {
    /// The store or its connection failed; carries the store's message.
    Dao(String),
    /// A record whose absence is an error was not found; carries the key asked for.
    NotFound(String),
    /// A payload or an enumeration code could not be decoded.
    Decode(String),
    /// The partition fold does not implement this commit operation.
    Unsupported(CommitOp),
    /// A partition's version cannot be advanced any further; carries its descriptor.
    VersionOverflow(String),
}

impl MetaError {
    /// A readable account of the error.
    pub fn message(&self) -> (r: String)
        ensures
            self matches MetaError::NotFound(k) ==> r@ == "Table '"@ + k@ + "' not found"@,
            self matches MetaError::Dao(m) ==> r@ == m@,
            self matches MetaError::Decode(m) ==> r@ == m@,
            self is Unsupported ==> r@ == "commit operation not supported"@,
            self matches MetaError::VersionOverflow(d) ==> r@ == "partition version overflow: "@ + d@,
    {
        match self {
            MetaError::Dao(m) => m.clone(),
            MetaError::NotFound(k) => {
                let mut r = String::from_str("Table '");
                r.append(k.as_str());
                r.append("' not found");
                r
            },
            MetaError::Decode(m) => m.clone(),
            MetaError::Unsupported(_) => String::from_str("commit operation not supported"),
            MetaError::VersionOverflow(d) => {
                let mut r = String::from_str("partition version overflow: ");
                r.append(d.as_str());
                r
            },
        }
    }
}

} // verus!
