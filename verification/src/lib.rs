//! Toggling of scratchpad windows through the control socket of the yabai
//! window manager: the wire framing of requests, the description of windows
//! and spaces, and the decisions of one toggle.

pub mod config;
pub mod error;
pub mod scratchpad;
pub mod socket;
pub mod text;
pub mod yabai_schema;
