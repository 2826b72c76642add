use vstd::prelude::*;

verus! {

/// A storage failure, tagged by the kind of operation that failed; the
/// string is a diagnostic message only.
#[derive(Debug, PartialEq, Eq)]
pub enum DBErrorKind {
    InsertError(String),
    SelectError(String),
    DeleteError(String),
    OtherError(String),
}

} // verus!
