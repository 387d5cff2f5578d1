//! The error taxonomy shared by every operation of the tracker.

use crate::config::Rejection;
use crate::text::{quote, quoted};
use vstd::prelude::*;
use vstd::std_specs::convert::FromSpecImpl;

verus! {

/// A failed operation, tagged with the HTTP status class it is reported under
/// and carrying a short, static, non-sensitive message.
#[derive(Debug, Clone, Copy, PartialEq, Eq)]
pub enum ErrResponse {
    /// The credential is valid but does not grant the operation.
    S403(&'static str),
    /// The entity, or an entity it refers to, does not exist.
    S404(&'static str),
    /// Storage, codec or interaction failure.
    S500(&'static str),
}

/// Why the relational store did not answer a query.
#[derive(Debug, Clone, Copy, PartialEq, Eq, Structural)]
pub enum StorageError {
    /// The query asked for one row and found none.
    NotFound,
    /// Any other failure reported by the store.
    Failed,
    /// The connection could not run the query at all.
    Interaction,
}

impl ErrResponse {
    /// The HTTP status code of this error.
    pub open spec fn status_spec(self) -> int {
        match self {
            ErrResponse::S403(_) => 403,
            ErrResponse::S404(_) => 404,
            ErrResponse::S500(_) => 500,
        }
    }

    /// The message carried by this error.
    pub open spec fn message_spec(self) -> &'static str {
        match self {
            ErrResponse::S403(m) => m,
            ErrResponse::S404(m) => m,
            ErrResponse::S500(m) => m,
        }
    }

    /// The HTTP status code this error is reported under.
    pub fn status(&self) -> (code: u16)
        ensures
            code == self.status_spec(),
    {
        match self {
            ErrResponse::S403(_) => 403,
            ErrResponse::S404(_) => 404,
            ErrResponse::S500(_) => 500,
        }
    }

    /// The message sent with this error.
    pub fn message(&self) -> (text: &'static str)
        ensures
            text == self.message_spec(),
    {
        match self {
            ErrResponse::S403(m) => m,
            ErrResponse::S404(m) => m,
            ErrResponse::S500(m) => m,
        }
    }

    /// The text of this error: the name of its variant and, in brackets, its
    /// message as `Debug` formatting writes it.
    pub open spec fn text_spec(self) -> Seq<char> {
        match self {
            ErrResponse::S403(m) => "S403("@ + quoted(m@) + ")"@,
            ErrResponse::S404(m) => "S404("@ + quoted(m@) + ")"@,
            ErrResponse::S500(m) => "S500("@ + quoted(m@) + ")"@,
        }
    }

    /// Writes this error as text, for logs.
    pub fn to_string(&self) -> (text: String)
        ensures
            text@ == self.text_spec(),
    {
        let mut text = match self {
            ErrResponse::S403(_) => "S403(".to_owned(),
            ErrResponse::S404(_) => "S404(".to_owned(),
            ErrResponse::S500(_) => "S500(".to_owned(),
        };
        text.append(quote(self.message()).as_str());
        text.append(")");
        text
    }

    /// The error that a storage failure is reported as.
    pub open spec fn of_storage(err: StorageError) -> ErrResponse {
        match err {
            StorageError::NotFound => ErrResponse::S404("data not found in database"),
            StorageError::Failed => ErrResponse::S500("database error"),
            StorageError::Interaction => ErrResponse::S500("database interaction error"),
        }
    }
}

/// Why a request got no successful answer: it was refused for want of a
/// credential, or the operation itself failed.
#[derive(Debug, Clone, Copy, PartialEq, Eq)]
pub enum Failure {
    Rejected(Rejection),
    Failed(ErrResponse),
}

impl Failure {
    /// The HTTP status code of the failure.
    pub open spec fn status_spec(self) -> int {
        match self {
            Failure::Rejected(r) => r.status_spec(),
            Failure::Failed(e) => e.status_spec(),
        }
    }

    /// The HTTP status code that the failure is reported under.
    pub fn status(&self) -> (code: u16)
        ensures
            code == self.status_spec(),
    {
        match self {
            Failure::Rejected(r) => r.status(),
            Failure::Failed(e) => e.status(),
        }
    }

    /// The static message sent with the failure.
    pub open spec fn message_spec(self) -> Seq<char> {
        match self {
            Failure::Rejected(r) => r.message_spec(),
            Failure::Failed(e) => e.message_spec()@,
        }
    }

    /// The static message sent with the failure: that of the rejection, or
    /// that of the error.
    pub fn message(&self) -> (text: &'static str)
        ensures
            text@ == self.message_spec(),
            self matches Failure::Failed(e) ==> text == e.message_spec(),
    {
        match self {
            Failure::Rejected(r) => r.message(),
            Failure::Failed(e) => e.message(),
        }
    }
}

/// The error that the answer of the store to a query is reported as, where
/// it is one.
pub open spec fn answered_spec<T>(answer: Result<T, StorageError>) -> Result<T, ErrResponse> {
    match answer {
        Ok(value) => Ok(value),
        Err(e) => Err(ErrResponse::of_storage(e)),
    }
}

/// Maps the answer of the store to a query.
pub fn answered<T>(answer: Result<T, StorageError>) -> (r: Result<T, ErrResponse>)
    ensures
        r == answered_spec(answer),
{
    match answer {
        Ok(value) => Ok(value),
        Err(e) => Err(ErrResponse::from(e)),
    }
}

/// The outcome of a query for a row that an operation cannot go on without:
/// a missing row is reported as `missing`, any other failure as the storage
/// failure it is.
pub open spec fn or_missing_spec<T>(answer: Result<T, StorageError>, missing: ErrResponse) -> Result<
    T,
    ErrResponse,
> {
    match answer {
        Ok(value) => Ok(value),
        Err(StorageError::NotFound) => Err(missing),
        Err(e) => Err(ErrResponse::of_storage(e)),
    }
}

/// Maps the answer of the store to a query for a row that an operation
/// cannot go on without: only a missing row is reported as `missing`.
pub fn or_missing<T>(answer: Result<T, StorageError>, missing: ErrResponse) -> (r: Result<
    T,
    ErrResponse,
>)
    ensures
        r == or_missing_spec(answer, missing),
{
    match answer {
        Ok(value) => Ok(value),
        Err(StorageError::NotFound) => Err(missing),
        Err(e) => Err(ErrResponse::from(e)),
    }
}

/// The outcome of deleting one row, from the number of rows that the store
/// reports as deleted: success where it is exactly one.
pub open spec fn removed_spec(answer: Result<usize, StorageError>) -> Result<(), ErrResponse> {
    match answer {
        Ok(rows) => if rows == 1 {
            Ok(())
        } else {
            Err(ErrResponse::S404("object not found in database"))
        },
        Err(e) => Err(ErrResponse::of_storage(e)),
    }
}

/// Decides the outcome of deleting one row.
pub fn removed(answer: Result<usize, StorageError>) -> (r: Result<(), ErrResponse>)
    ensures
        r == removed_spec(answer),
{
    match answer {
        Ok(rows) => if rows == 1 {
            Ok(())
        } else {
            Err(ErrResponse::S404("object not found in database"))
        },
        Err(e) => Err(ErrResponse::from(e)),
    }
}

/// The outcome of a statement whose row count does not matter: a bulk delete,
/// or an update in place. It succeeds even where no row was touched.
pub open spec fn executed_spec(answer: Result<usize, StorageError>) -> Result<(), ErrResponse> {
    match answer {
        Ok(_) => Ok(()),
        Err(e) => Err(ErrResponse::of_storage(e)),
    }
}

/// Decides the outcome of a statement whose row count does not matter.
pub fn executed(answer: Result<usize, StorageError>) -> (r: Result<(), ErrResponse>)
    ensures
        r == executed_spec(answer),
{
    match answer {
        Ok(_) => Ok(()),
        Err(e) => Err(ErrResponse::from(e)),
    }
}

/// Storage failures are mapped once, here: a missing row is `S404`, every
/// other failure is `S500`.
impl From<StorageError> for ErrResponse {
    fn from(err: StorageError) -> (r: ErrResponse) {
        match err {
            StorageError::NotFound => ErrResponse::S404("data not found in database"),
            StorageError::Failed => ErrResponse::S500("database error"),
            StorageError::Interaction => ErrResponse::S500("database interaction error"),
        }
    }
}

impl FromSpecImpl<StorageError> for ErrResponse {
    open spec fn obeys_from_spec() -> bool {
        true
    }

    open spec fn from_spec(err: StorageError) -> ErrResponse {
        ErrResponse::of_storage(err)
    }
}

/// An error as the pair of its status code and its message.
impl From<ErrResponse> for (u16, &'static str) {
    fn from(err: ErrResponse) -> (r: (u16, &'static str)) {
        match err {
            ErrResponse::S500(message) => (500, message),
            ErrResponse::S404(message) => (404, message),
            ErrResponse::S403(message) => (403, message),
        }
    }
}

impl FromSpecImpl<ErrResponse> for (u16, &'static str) {
    open spec fn obeys_from_spec() -> bool {
        true
    }

    open spec fn from_spec(err: ErrResponse) -> (u16, &'static str) {
        (err.status_spec() as u16, err.message_spec())
    }
}

} // verus!
