//! Verified core of a desktop activity recorder: the coalescing state
//! machines that turn low-level input notifications into a de-duplicated,
//! rate-limited, privacy-filtered event stream, and the small decision
//! functions of the tools around it.
pub mod strings;
pub mod text_buffer;
pub mod scroll;
pub mod event;
pub mod clipboard;
pub mod window;
pub mod privacy;
pub mod keyboard;
pub mod pointer;
pub mod config;
pub mod recorder;
pub mod tapper;
pub mod tray;
pub mod args;
pub mod writer;
pub mod control;
pub mod schema;
pub mod obs;
