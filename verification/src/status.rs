//! The outcome that the server reports to a client: a code and a message.
use vstd::prelude::*;

verus! {

/// The kinds of failure that the server reports.
#[derive(Clone, Copy, Debug, PartialEq, Eq, Structural)]
pub enum Code {
    Cancelled,
    InvalidArgument,
    AlreadyExists,
    PermissionDenied,
    ResourceExhausted,
    Internal,
}

/// A failure reported to a client: its kind and a human readable message.
#[derive(Debug)]
pub struct Status {
    pub code: Code,
    pub message: String,
}

impl Status {
    /// A status with the given code and message.
    pub fn new(code: Code, message: &str) -> (r: Status)
        ensures
            r.code == code,
            r.message@ == message@,
    {
        Status { code, message: message.to_owned() }
    }

    /// The request was cancelled.
    pub fn cancelled(message: &str) -> (r: Status)
        ensures
            r.code == Code::Cancelled,
            r.message@ == message@,
    {
        Status::new(Code::Cancelled, message)
    }

    /// The client sent an invalid argument.
    pub fn invalid_argument(message: &str) -> (r: Status)
        ensures
            r.code == Code::InvalidArgument,
            r.message@ == message@,
    {
        Status::new(Code::InvalidArgument, message)
    }

    /// The resource the client asked for already exists.
    pub fn already_exists(message: &str) -> (r: Status)
        ensures
            r.code == Code::AlreadyExists,
            r.message@ == message@,
    {
        Status::new(Code::AlreadyExists, message)
    }

    /// The server lacks the permission to do what the client asked.
    pub fn permission_denied(message: &str) -> (r: Status)
        ensures
            r.code == Code::PermissionDenied,
            r.message@ == message@,
    {
        Status::new(Code::PermissionDenied, message)
    }

    /// The server ran out of what the client asked for.
    pub fn resource_exhausted(message: &str) -> (r: Status)
        ensures
            r.code == Code::ResourceExhausted,
            r.message@ == message@,
    {
        Status::new(Code::ResourceExhausted, message)
    }

    /// Something failed inside the server.
    pub fn internal(message: &str) -> (r: Status)
        ensures
            r.code == Code::Internal,
            r.message@ == message@,
    {
        Status::new(Code::Internal, message)
    }

    /// A copy of this status.
    pub fn duplicate(&self) -> (r: Status)
        ensures
            r.code == self.code,
            r.message@ == self.message@,
    {
        Status { code: self.code, message: self.message.clone() }
    }
}

} // verus!
