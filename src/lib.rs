//! Configuration record of a password-manager command-line client: its
//! defaults, the in-memory fix-ups applied after loading, its validation and
//! the endpoint values derived from it.
pub mod config;
pub mod error;
pub mod lemmas;
pub mod text;
