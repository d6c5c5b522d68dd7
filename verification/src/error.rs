//! The service's error taxonomy, and how a failure of the store is filed
//! under it.

use vstd::prelude::*;

verus! {

/// What can go wrong behind the HTTP boundary. Each variant carries the full
/// detail for the log; none of it is ever sent to a client.
#[derive(Clone, Debug, PartialEq, Eq)]
pub enum Error {
    /// The store rejected the statement or could not execute it.
    DatabaseError(String),
    /// A lookup found no row. No write path produces it.
    NotFound(String),
    /// Any other unexpected condition.
    Internal(String),
}

/// What an `Error` holds, as mathematical values.
pub enum ErrorView {
    DatabaseError(Seq<char>),
    NotFound(Seq<char>),
    Internal(Seq<char>),
}

impl View for Error {
    type V = ErrorView;

    open spec fn view(&self) -> ErrorView {
        match self {
            Error::DatabaseError(detail) => ErrorView::DatabaseError(detail@),
            Error::NotFound(detail) => ErrorView::NotFound(detail@),
            Error::Internal(detail) => ErrorView::Internal(detail@),
        }
    }
}

impl ErrorView {
    /// The detail that the error carries.
    pub open spec fn detail(self) -> Seq<char> {
        match self {
            ErrorView::DatabaseError(detail) => detail,
            ErrorView::NotFound(detail) => detail,
            ErrorView::Internal(detail) => detail,
        }
    }
}

impl Error {
    /// The detail that the error carries, for the log.
    pub fn message(&self) -> (text: &String)
        ensures
            text@ == self@.detail(),
    {
        match self {
            Error::DatabaseError(detail) => detail,
            Error::NotFound(detail) => detail,
            Error::Internal(detail) => detail,
        }
    }
}

/// The ways in which the database driver reports a failure, as far as the
/// service tells them apart.
#[derive(Clone, Copy, Debug, PartialEq, Eq, Structural)]
pub enum FailureKind {
    /// A query that expected a row found none.
    RowNotFound,
    /// The database answered with an error, such as a violated constraint.
    Database,
    /// The connection to the database broke.
    Io,
    /// No secure connection could be set up.
    Tls,
    /// No connection became free in time.
    PoolTimedOut,
    /// The pool was closed.
    PoolClosed,
    /// Anything else.
    Other,
}

/// A failure of the store: its kind and the driver's own words.
#[derive(Clone, Debug, PartialEq, Eq)]
pub struct StoreFailure {
    pub kind: FailureKind,
    pub detail: String,
}

/// What a `StoreFailure` holds, as mathematical values.
pub struct StoreFailureView {
    pub kind: FailureKind,
    pub detail: Seq<char>,
}

impl View for StoreFailure {
    type V = StoreFailureView;

    open spec fn view(&self) -> StoreFailureView {
        StoreFailureView { kind: self.kind, detail: self.detail@ }
    }
}

/// Where a failure of the given kind is filed: a missing row under
/// `NotFound`; what the store rejected or could not execute under
/// `DatabaseError`; the rest under `Internal`.
pub open spec fn filed_under(failure: StoreFailureView) -> ErrorView {
    match failure.kind {
        FailureKind::RowNotFound => ErrorView::NotFound(failure.detail),
        FailureKind::Database
        | FailureKind::Io
        | FailureKind::Tls
        | FailureKind::PoolTimedOut
        | FailureKind::PoolClosed => ErrorView::DatabaseError(failure.detail),
        FailureKind::Other => ErrorView::Internal(failure.detail),
    }
}

impl vstd::std_specs::convert::FromSpecImpl<StoreFailure> for Error {
    open spec fn obeys_from_spec() -> bool {
        true
    }

    open spec fn from_spec(failure: StoreFailure) -> Error {
        match failure.kind {
            FailureKind::RowNotFound => Error::NotFound(failure.detail),
            FailureKind::Database
            | FailureKind::Io
            | FailureKind::Tls
            | FailureKind::PoolTimedOut
            | FailureKind::PoolClosed => Error::DatabaseError(failure.detail),
            FailureKind::Other => Error::Internal(failure.detail),
        }
    }
}

impl From<StoreFailure> for Error {
    /// Files a failure of the store under the taxonomy, keeping its detail.
    fn from(failure: StoreFailure) -> (err: Error)
        ensures
            err@ == filed_under(failure@),
    {
        match failure.kind {
            FailureKind::RowNotFound => Error::NotFound(failure.detail),
            FailureKind::Database
            | FailureKind::Io
            | FailureKind::Tls
            | FailureKind::PoolTimedOut
            | FailureKind::PoolClosed => Error::DatabaseError(failure.detail),
            FailureKind::Other => Error::Internal(failure.detail),
        }
    }
}

} // verus!
