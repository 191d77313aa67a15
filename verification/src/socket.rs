//! What the server answers when it cannot bind a port.
use vstd::prelude::*;

use crate::status::{Code, Status};

verus! {

/// Why binding a port failed.
#[derive(Clone, Copy, Debug, PartialEq, Eq, Structural)]
pub enum BindErrorKind {
    /// Another socket holds the port.
    AddrInUse,
    /// The process may not bind the port.
    PermissionDenied,
    /// Any other failure.
    Other,
}

/// The status to report for a port that could not be bound.
pub fn map_bind_error(kind: BindErrorKind) -> (r: Status)
    ensures
        kind == BindErrorKind::AddrInUse ==> r.code == Code::AlreadyExists && r.message@
            == "port already in use"@,
        kind == BindErrorKind::PermissionDenied ==> r.code == Code::PermissionDenied
            && r.message@ == "permission denied"@,
        kind == BindErrorKind::Other ==> r.code == Code::Internal && r.message@
            == "failed to bind port"@,
{
    match kind {
        BindErrorKind::AddrInUse => Status::already_exists("port already in use"),
        BindErrorKind::PermissionDenied => Status::permission_denied("permission denied"),
        BindErrorKind::Other => Status::internal("failed to bind port"),
    }
}

} // verus!
