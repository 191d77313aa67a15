//! Nested message types of `ControlCommand`.
use vstd::prelude::*;

use super::{InitPayload, WorkPayload};

verus! {

/// What a control command carries.
#[derive(Clone, Debug, PartialEq)]
pub enum Payload {
    Init(InitPayload),
    Work(WorkPayload),
}

} // verus!
