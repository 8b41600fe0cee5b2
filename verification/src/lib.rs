pub mod cli;
pub mod commands;
pub mod config;
pub mod error;
pub mod platform;
pub mod prepare;
pub mod runtime;
pub mod text;

pub use config::MacK3dConfig;
pub use error::Error;
