//! Core of a small interactive pet-browsing application.
//!
//! The library holds the parts worth reasoning about: the message protocol
//! between the presentation loop and the background worker, the application
//! state and its reconciliation against incoming result messages, the store
//! gateway over a sqlite connection, and the worker's dispatch logic.
//! Rendering, channels and process bootstrap live outside the library.

pub mod pet;
pub mod msg;
pub mod parse;
pub mod state;
pub mod store;
pub mod worker;
pub mod image;
pub mod laws;
