//! Core state machinery of a terminal peer-to-peer chat: UI focus state,
//! chat history and connection diagnostics, session lifecycle, and the
//! dispatch of decoded input events and network protocol events.
//!
//! The overlay network itself and the terminal are external collaborators:
//! this library decides what each event does to the application state and
//! which operation (publish, dial, regenerate) the surrounding runtime must
//! perform on the live network session.

pub mod app;
pub mod connection;
pub mod input;
pub mod ui;
pub mod utils;
