//! Discovery-and-transfer engine for sharing files and text between devices
//! on a local network.
//!
//! The crate holds the rules of the engine as verified functions on plain
//! values: the peer table and the browse state machine, the registry of
//! transfers awaiting confirmation, the per-part upload pipeline, progress
//! throttling, file-name handling and content sniffing.  Sockets, timers and
//! the user interface live with the caller, which performs the actions that
//! the state machines hand out and feeds the resulting events back in.

pub mod text;
pub mod sniff;
pub mod peers;
pub mod discovery;
pub mod pending;
pub mod events;
pub mod upload;
pub mod client;
pub mod config;
pub mod advertise;
