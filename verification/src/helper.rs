//! Checks of the requests that clients send.
use vstd::prelude::*;

use crate::pb::RegisterReq;
use crate::status::{Code, Status};

verus! {

/// A registration must name a tunnel, and the tunnel a configuration.
/// Gives the status to answer with when it does not.
pub fn validate_register_req(req: &RegisterReq) -> (r: Option<Status>)
    ensures
        req.tunnel is None ==> (r matches Some(s) && s.code == Code::InvalidArgument
            && s.message@ == "tunnel is required"@),
        req.tunnel matches Some(t) && t.config is None ==> (r matches Some(s) && s.code
            == Code::InvalidArgument && s.message@ == "config is required"@),
        req.tunnel matches Some(t) && t.config is Some ==> r is None,
{
    match &req.tunnel {
        None => Some(Status::invalid_argument("tunnel is required")),
        Some(tunnel) => {
            if tunnel.config.is_none() {
                return Some(Status::invalid_argument("config is required"));
            }
            None
        },
    }
}

} // verus!
