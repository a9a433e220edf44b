//! The library's data: requests, responses and domain values.

pub mod admin;
pub mod config;
pub mod contract_interaction;
pub mod currency;
pub mod metadata;
pub mod response;
pub mod token_metadata;
pub mod transaction;
pub mod transaction_type;
pub mod transfer;
pub mod user;
pub mod wallet;

pub use crate::services::hello_world_service::HelloWorld;
pub use currency::Currency;
pub use metadata::Metadata;
pub use transaction_type::TransactionType;
