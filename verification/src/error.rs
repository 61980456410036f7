//! Failures that travel through a response.

use vstd::prelude::*;

verus! {

/// Why a statement failed, as the protocol's error message reports it.
#[derive(Debug, Clone, PartialEq, Eq)]
pub struct ErrorInfo {
    severity: String,
    code: String,
    message: String,
}

/// An `ErrorInfo` as plain values.
pub ghost struct ErrorInfoView {
    pub severity: Seq<char>,
    pub code: Seq<char>,
    pub message: Seq<char>,
}

impl View for ErrorInfo {
    type V = ErrorInfoView;

    closed spec fn view(&self) -> ErrorInfoView {
        ErrorInfoView { severity: self.severity@, code: self.code@, message: self.message@ }
    }
}

impl ErrorInfo {
    pub fn new(severity: String, code: String, message: String) -> (info: ErrorInfo)
        ensures
            info@ == (ErrorInfoView { severity: severity@, code: code@, message: message@ }),
    {
        ErrorInfo { severity, code, message }
    }

    pub fn severity(&self) -> (s: &String)
        ensures
            s@ == self@.severity,
    {
        &self.severity
    }

    pub fn code(&self) -> (s: &String)
        ensures
            s@ == self@.code,
    {
        &self.code
    }

    pub fn message(&self) -> (s: &String)
        ensures
            s@ == self@.message,
    {
        &self.message
    }
}

/// A value could not be written as its declared type in the requested format.
#[derive(Debug, Clone, PartialEq, Eq)]
pub struct EncodeError {
    pub reason: String,
}

/// What a row sequence yields in place of a row when it fails.
#[derive(Debug, Clone, PartialEq, Eq)]
pub enum PgWireError {
    /// A field of the row could not be encoded.
    FieldEncoding(EncodeError),
    /// The row source failed.
    RowSource(Box<ErrorInfo>),
}

pub type PgWireResult<T> = Result<T, PgWireError>;

impl From<EncodeError> for PgWireError {
    fn from(e: EncodeError) -> (err: PgWireError) {
        PgWireError::FieldEncoding(e)
    }
}

impl vstd::std_specs::convert::FromSpecImpl<EncodeError> for PgWireError {
    open spec fn obeys_from_spec() -> bool {
        true
    }

    open spec fn from_spec(e: EncodeError) -> PgWireError {
        PgWireError::FieldEncoding(e)
    }
}

} // verus!
