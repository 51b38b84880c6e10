pub mod mqtt;
pub mod io;
pub mod config;
