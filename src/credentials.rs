//! Secure credential storage.

pub mod store;

pub use store::CredentialStore;
