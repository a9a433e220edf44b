//! The service operations: their checks, the answers they build, and the
//! steps of the flows that alternate with calls to the chain.

pub mod admin_service;
pub mod auth_service;
pub mod balance_service;
pub mod hello_world_service;
pub mod metadata_service;
pub mod mint_service;
pub mod token_metadata_service;
pub mod transfer_service;
pub mod user_operation_other;
pub mod wallet_service;
