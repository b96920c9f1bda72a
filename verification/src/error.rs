//! The native library's error queue, as plain values.
//!
//! A failing native call leaves diagnostic records on a queue that belongs to
//! the calling thread. The caller that drains the queue hands its contents to
//! this crate as an [`ErrorStack`], the one error that this crate reports.

use libc::{c_int, c_ulong};
use vstd::prelude::*;

verus! {

/// What one record of the error queue holds.
pub struct ErrorView {
    /// The packed error code.
    pub code: c_ulong,
    /// The native source file that raised the error.
    pub file: Seq<char>,
    /// The line in that file.
    pub line: c_int,
    /// Free text that came with the error, if any did.
    pub data: Option<Seq<char>>,
}

/// One record of the error queue.
#[derive(Debug, Clone, PartialEq, Eq)]
pub struct Error {
    code: c_ulong,
    file: String,
    line: c_int,
    data: Option<String>,
}

impl View for Error {
    type V = ErrorView;

    closed spec fn view(&self) -> ErrorView {
        ErrorView {
            code: self.code,
            file: self.file@,
            line: self.line,
            data: match self.data {
                Some(text) => Some(text@),
                None => None,
            },
        }
    }
}

impl Error {
    /// A record with the given contents.
    pub fn new(code: c_ulong, file: String, line: c_int, data: Option<String>) -> (error: Error)
        ensures
            error@ == (ErrorView {
                code,
                file: file@,
                line,
                data: match data {
                    Some(text) => Some(text@),
                    None => None,
                },
            }),
    {
        Error { code, file, line, data }
    }

    /// The packed error code.
    pub fn code(&self) -> (code: c_ulong)
        ensures
            code == self@.code,
    {
        self.code
    }

    /// The native source file that raised the error.
    pub fn file(&self) -> (file: &str)
        ensures
            file@ == self@.file,
    {
        self.file.as_str()
    }

    /// The line in that file.
    pub fn line(&self) -> (line: c_int)
        ensures
            line == self@.line,
    {
        self.line
    }

    /// Free text that came with the error, if any did.
    pub fn data(&self) -> (data: Option<&str>)
        ensures
            data matches Some(text) ==> self@.data == Some(text@),
            data is None ==> self@.data is None,
    {
        match &self.data {
            Some(text) => Some(text.as_str()),
            None => None,
        }
    }
}

/// A snapshot of the error queue: its records, oldest first.
///
/// The view is the sequence of records.
#[derive(Debug, Clone, PartialEq, Eq)]
pub struct ErrorStack {
    errors: Vec<Error>,
}

impl View for ErrorStack {
    type V = Seq<Error>;

    closed spec fn view(&self) -> Seq<Error> {
        self.errors@
    }
}

impl ErrorStack {
    /// The snapshot that holds `errors`, in their order.
    pub fn new(errors: Vec<Error>) -> (stack: ErrorStack)
        ensures
            stack@ == errors@,
    {
        ErrorStack { errors }
    }

    /// The records of the snapshot, oldest first.
    pub fn errors(&self) -> (errors: &[Error])
        ensures
            errors@ == self@,
    {
        self.errors.as_slice()
    }
}

} // verus!
