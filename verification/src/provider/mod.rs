//! Helpers and the decisions around calls to the chain and the bundler.

pub mod bundler;
pub mod contracts;
pub mod helpers;
pub mod listeners;
pub mod paymaster_provider;
pub mod verifying_paymaster_helper;
pub mod web3_provider;
