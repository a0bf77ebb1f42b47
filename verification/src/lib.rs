//! Verified core of the AxiomVault command-line tool.

pub mod text;
pub mod hardware_key;
pub mod oauth;
pub mod conversions;
pub mod password;
pub mod icloud;
pub mod raid;
pub mod security;
pub mod health;
pub mod completions;
pub mod vault_files;
