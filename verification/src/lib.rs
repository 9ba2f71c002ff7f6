//! Session/token authentication core for a text-clip sharing service.
//!
//! Users register, authenticate with a username and password, and receive a
//! pair of signed tokens (a short-lived access token and a long-lived refresh
//! token) backed by a server-side session record. Every protected request
//! passes an authentication gate that checks both the session store and the
//! token signature. Clips (text snippets) are stored per user and addressable
//! by id or by a short public URL.
//!
//! All time-dependent behaviour takes the current instant as an explicit
//! argument (seconds since the Unix epoch), so expiry rules are part of the
//! contracts and can be exercised with a fixed clock.

pub mod clips;
pub mod config;
pub mod crypto;
pub mod errors;
pub mod handlers;
pub mod laws;
pub mod models;
pub mod token;
pub mod sessions;
pub mod users;

pub use config::Config;
pub use errors::ApiError;
