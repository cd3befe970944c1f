//! The host side of a client for PJRT plugins, without the calls into the
//! plugin: what is checked before a call, what storage the call is given, how
//! its raw outcome becomes an owned result, and how the plugin's records are
//! decoded and encoded. Handles are plain machine words; zero is the null handle.

pub mod api;
pub mod buffer;
pub mod device;
pub mod error;
pub mod event;
pub mod executable;
pub mod loaded_executable;
pub mod memory_layout;
pub mod named_value;
pub mod primitive_type;
pub mod program;
