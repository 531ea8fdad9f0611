//! Configuration from the environment and from the TOML file.

pub mod env;
pub mod file;

pub use env::Config;
pub use file::AutogitConfig;
