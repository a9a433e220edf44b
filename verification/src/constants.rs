//! Names that requests and the service agree on.

use vstd::prelude::*;

verus! {

/// The currency name of a chain's native coin.
pub const NATIVE: &'static str = "native";

/// The entity name of the verifying paymaster, in balance queries.
pub const PAYMASTER: &'static str = "paymaster";

/// The entity name of the relayer account, in balance queries.
pub const RELAYER: &'static str = "relayer";

/// The name of the verifying paymaster, in deposit requests.
pub const VERIFYING_PAYMASTER: &'static str = "verifying_paymaster";


/// The end of the window in which the paymaster's sponsorship is valid.
pub const VALID_UNTIL: u64 = 3735928559;

/// The start of the window in which the paymaster's sponsorship is valid.
pub const VALID_AFTER: u64 = 4660;

} // verus!
