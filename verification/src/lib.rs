//! Credential import and administration rules for a Kiro gateway.
//!
//! The library decides; the program around it reads files and databases, runs commands and talks
//! to services. Where decisions and such work take turns, a type with a method for what to do next
//! and a method that takes what came of it stands between them.
pub mod text;
pub mod words;
pub mod decimal;
pub mod priority;
pub mod digest;
pub mod paths;
pub mod json;
pub mod arg;
pub mod credentials;
pub mod token_record;
pub mod credential_load;
pub mod credential_import;
pub mod redaction;
pub mod callback;
pub mod browser;
pub mod oauth_status;
pub mod login_output;
pub mod kiro_cli;
pub mod oauth_login;
pub mod endpoints;
pub mod balance_cache;
pub mod admin_error;
pub mod admin_types;
pub mod admin_service;
