pub mod commands;
pub mod config;
pub mod laws;
pub mod paths;
pub mod report;
pub mod runner;
pub mod session;
pub mod store;
