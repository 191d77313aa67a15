//! The wall clock.
use vstd::prelude::*;

verus! {

/// `SystemTime::now` as whole seconds since the Unix epoch, `None` when the
/// clock reads before the epoch. Nothing is promised of the value.
#[verifier::external_body]
pub(crate) fn seconds_since_epoch() -> Option<u64> {
    match std::time::SystemTime::now().duration_since(std::time::UNIX_EPOCH) {
        Ok(elapsed) => Some(elapsed.as_secs()),
        Err(_) => None,
    }
}

} // verus!
