//! Small helpers shared by the request handlers.
use vstd::prelude::*;

verus! {

/// The name of the identity that acts where a request names none.
pub fn system_username() -> (s: String)
    ensures
        s@ == "system"@,
{
    "system".to_string()
}

/// The identity on whose behalf a request is handled: the one it names, or
/// the service's own.
pub fn acting_username(named: Option<String>) -> (s: String)
    ensures
        s@ == (match named {
            Some(n) => n@,
            None => "system"@,
        }),
{
    match named {
        Some(n) => n,
        None => system_username(),
    }
}

} // verus!
