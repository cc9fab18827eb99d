//! What the service falls back to where its configuration is silent.

use vstd::prelude::*;

verus! {

/// The address the service listens on unless told otherwise.
pub fn default_bind_address() -> (address: String)
    ensures
        address@ == "0.0.0.0:8080"@,
{
    String::from_str("0.0.0.0:8080")
}

/// The seconds that running work is given at shutdown unless told
/// otherwise.
pub fn default_shutdown_timeout() -> (seconds: u64)
    ensures
        seconds == 30,
{
    30u64
}

} // verus!
