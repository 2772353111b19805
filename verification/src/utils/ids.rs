//! Generated identifiers for rows and connections.
use vstd::prelude::*;

verus! {

/// A new random identifier.
///
/// Calls `uuid::Uuid::new_v4` and writes the value with `to_string`. The
/// value is random: nothing is claimed of it.
#[verifier::external_body]
pub(crate) fn new_id() -> String {
    uuid::Uuid::new_v4().to_string()
}

} // verus!
