//! Opaque identifiers of jobs and tasks.

use vstd::prelude::*;

verus! {

/// Relies on `uuid::Uuid::new_v4` and the `Display` impl of `uuid::Uuid`: a
/// random identifier, written in the hyphenated form of 36 characters.
#[verifier::external_body]
fn fresh_uuid() -> (r: String)
    ensures
        r@.len() == 36,
{
    uuid::Uuid::new_v4().to_string()
}

/// Identifier of a job; compared by value.
#[derive(Debug, Clone, PartialEq, Eq, Hash)]
pub struct JobId(pub String);

impl JobId {
    /// A fresh random identifier.
    pub fn new() -> (r: Self)
        ensures
            r.0@.len() == 36,
    {
        JobId(fresh_uuid())
    }
}

/// Identifier of a task; compared by value.
#[derive(Debug, Clone, PartialEq, Eq, Hash)]
pub struct TaskId(pub String);

impl TaskId {
    /// A fresh random identifier.
    pub fn new() -> (r: Self)
        ensures
            r.0@.len() == 36,
    {
        TaskId(fresh_uuid())
    }
}

} // verus!
