//! Verified core of an ERC-4337 account-abstraction relayer and bundler:
//! user-operation construction, packing and hashing, token metadata
//! responses, request validation and the decisions of the transfer,
//! wallet and authentication flows.

pub mod clock;
pub mod constants;
pub mod errors;
pub mod eth;
pub mod keyed_map;
pub mod models;
pub mod provider;
pub mod services;
pub mod text;
