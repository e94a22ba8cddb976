//! Core of a language server: document synchronisation, session lifecycle,
//! request bookkeeping and diagnostics delivery, independent of any transport.

pub mod text;
pub mod error;
pub mod store;
pub mod capabilities;
pub mod session;
pub mod requests;
pub mod diagnostics;
pub mod handlers;
pub mod server;
