//! autogit_core: administration of a self-hosted source-control platform.
//!
//! Secrets are held in zeroing boxes and never rendered by generic
//! formatting; the API client refuses unencrypted connections to remote
//! hosts; mirror orchestration is a set of pure decision functions.

pub mod bootstrap;
pub mod config;
pub mod credentials;
pub mod error;
pub mod gitlab;
pub mod mirror;
pub mod output;
pub mod registrar;
pub mod text;

pub use error::Error;
