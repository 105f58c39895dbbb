pub mod config;
pub mod crypto;
pub mod error;
pub mod socket;
