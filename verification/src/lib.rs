//! A verified core for an SMTP test client: option parsing, configuration
//! defaults, diagnostics, address checks, message building, delivery retry
//! rules, and the console and log lines of the logger.

pub mod text;
pub mod smtp;
pub mod diagnose;
pub mod address;
pub mod logger;
pub mod ping;
pub mod config;
pub mod send;
pub mod mail;
pub mod transport;
pub mod cli;
pub mod probe;
