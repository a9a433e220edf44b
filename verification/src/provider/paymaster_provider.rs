//! Reading the verifying paymaster's hash of an operation.

use vstd::prelude::*;

verus! {

/// The verifying paymaster contract.
pub struct PaymasterProvider;

impl PaymasterProvider {
    /// The paymaster's hash, or the failure to get it.
    pub fn hash_result(response: Result<[u8; 32], String>) -> (res: Result<[u8; 32], String>)
        ensures
            match response {
                Ok(h) => res == Ok::<[u8; 32], String>(h),
                Err(_) => res matches Err(m) && m@ == "Failed to get hash"@,
            },
    {
        match response {
            Ok(h) => Ok(h),
            Err(_) => Err(String::from_str("Failed to get hash")),
        }
    }
}

} // verus!
