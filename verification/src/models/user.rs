//! A user of the service as the wallet store holds it.

use vstd::prelude::*;

verus! {

/// A user and their smart-contract wallet; the wallet address is empty
/// until one has been made.
pub struct User {
    pub email: String,
    pub name: String,
    pub wallet_address: String,
    pub owner_address: String,
    pub external_user_id: String,
    pub salt: u64,
    pub deployed: bool,
}

} // verus!
