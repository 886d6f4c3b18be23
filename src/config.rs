pub mod config;
pub mod loader;
pub mod schema;
