//! Outcomes of metadata-store calls.
//!
//! The store itself is an external collaborator reached over `sqlx`; the
//! surrounding plumbing performs the queries and hands their results to
//! this library.  The one thing read out of a store error is whether it
//! signals a uniqueness violation, which callers must translate to a
//! conflict rather than a generic failure.

use vstd::prelude::*;

verus! {

#[verifier::external_type_specification]
#[verifier::external_body]
pub struct ExSqlxError(sqlx::Error);

/// Whether the store rejected a write for violating a uniqueness
/// constraint.
///
/// Relies on `sqlx::Error::as_database_error` and
/// `sqlx::error::DatabaseError::is_unique_violation`.  Nothing is
/// promised of the answer.
#[verifier::external_body]
fn is_unique_violation(e: &sqlx::Error) -> bool {
    e.as_database_error().map_or(false, |d| d.is_unique_violation())
}

/// What an insert into the metadata store came to.
#[derive(Clone, Copy, Debug, PartialEq, Eq, Structural)]
pub enum InsertOutcome {
    /// The row was written.
    Inserted,
    /// The store refused the row for violating a uniqueness constraint.
    DuplicateKey,
    /// The store failed for any other reason.
    StoreFailed,
}

/// Reads an insert result: success maps to `Inserted`, and a failure is
/// split by whether the store signalled a uniqueness violation.
pub fn classify_insert(r: Result<(), sqlx::Error>) -> (o: InsertOutcome)
    ensures
        o is Inserted <==> r is Ok,
{
    match r {
        Ok(()) => InsertOutcome::Inserted,
        Err(e) => if is_unique_violation(&e) {
            InsertOutcome::DuplicateKey
        } else {
            InsertOutcome::StoreFailed
        },
    }
}

} // verus!
