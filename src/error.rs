use vstd::prelude::*;

verus! {

/// The kinds of failure the service core distinguishes.
#[derive(Debug, Clone, Copy, PartialEq, Eq, Structural)]
pub enum ErrorKind {
    /// The service-account key is missing or malformed.
    Credentials,
    /// The authentication handshake with the warehouse failed.
    Handshake,
    /// The warehouse rejected or failed a query.
    Query,
    /// A lookup by id matched no row.
    NotFound,
    /// A request parameter was rejected before any query ran.
    Validation,
    /// A result lacks a column the record is read from.
    Schema,
}

/// An error of the service core: its kind and a diagnostic detail that is
/// logged but never shown to external callers.
#[derive(Debug, Clone)]
pub struct AppError {
    pub kind: ErrorKind,
    pub detail: String,
}

/// Two errors of the same kind and detail.
pub open spec fn same_error(a: AppError, b: AppError) -> bool {
    a.kind == b.kind && a.detail@ == b.detail@
}

impl AppError {
    pub fn new(kind: ErrorKind, detail: String) -> (r: AppError)
        ensures
            r.kind == kind,
            r.detail@ == detail@,
    {
        AppError { kind, detail }
    }

    /// A copy of this error, with the same kind and detail.
    pub fn duplicate(&self) -> (r: AppError)
        ensures
            same_error(r, *self),
    {
        AppError { kind: self.kind, detail: self.detail.clone() }
    }

    /// Whether this error is the normal "no such resource" outcome rather
    /// than a server fault.
    pub fn is_not_found(&self) -> (r: bool)
        ensures
            r == (self.kind == ErrorKind::NotFound),
    {
        self.kind == ErrorKind::NotFound
    }
}

} // verus!
