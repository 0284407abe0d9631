//! Session lifecycle and upstream request logic for a player-statistics backend.
//!
//! The library decides; the caller performs the input and output. Every
//! decision is a verified function from plain values to plain values.

pub mod clock;
pub mod errors;
pub mod text;
pub mod models;
pub mod config;
pub mod upstream;
pub mod session;
pub mod gateway;
pub mod session_laws;
pub mod validation;
