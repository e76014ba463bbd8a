//! Where the store is found.

use vstd::prelude::*;
use vstd::string::StringExecFns;

verus! {

/// The most connections the pool opens.
pub const MAX_CONNECTIONS: u32 = 5;

/// The address of the store: a store in memory for unit tests, else the
/// address that was configured. `None` when neither is there.
pub fn database_url(unit_test: bool, configured: Option<String>) -> (url: Option<String>)
    ensures
        unit_test ==> url is Some && url->0@ == "sqlite://:memory:"@,
        !unit_test ==> url == configured,
{
    if unit_test {
        Some(String::from_str("sqlite://:memory:"))
    } else {
        configured
    }
}

} // verus!
