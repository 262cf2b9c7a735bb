//! Verified core of the TRAE Work CN account and instance manager.
pub mod text;
mod outside;
pub mod seq_search;
pub mod numbers;
pub mod account_types;
pub mod api_types;
pub mod machine;
pub mod account_manager;
pub mod account_laws;
pub mod instance_types;
pub mod instance_manager;
pub mod instance_laws;
pub mod auth_crypto;
pub mod storage;
pub mod storage_laws;
pub mod api;
pub mod login;
pub mod errors;
