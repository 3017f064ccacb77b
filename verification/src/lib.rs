//! Provisioning of a game server: the configuration file, the resolution of
//! the requested server build, the local artifact repository and the plugins.
//!
//! The library decides; a driver outside it reads, writes and downloads.

pub mod config;
pub mod helpers;
