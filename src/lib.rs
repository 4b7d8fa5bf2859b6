//! Resolves a numeric user id into an avatar image or a small public profile.
//!
//! The library holds every decision of the relay: routing of request paths,
//! decimal parsing and printing, avatar and banner URL derivation, and the
//! mapping of every failure to a public status and message. The program around
//! it performs the HTTP requests that those decisions ask for.
pub mod decimal;
pub mod route;
pub mod avatar;
pub mod respond;
