//! The wallpaper player: its IPC protocol, its launch options, the state of
//! the running players, and the display outputs.
pub mod ipc;
pub mod sysinfo;
pub mod player;
pub mod outputs;
