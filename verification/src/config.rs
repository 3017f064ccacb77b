pub mod config;
pub mod config_file;
pub mod error;
pub mod laws;
pub mod repository;
pub mod round_trip;
pub mod specifier;
