//! Control core of a desktop application shell: the window registry and its
//! lifecycle policy, the script-to-native message protocol, file-dialog event
//! replay and the live-reload transport.
use vstd::prelude::*;

pub mod app;
pub mod config;
pub mod file_dialog;
pub mod hot_reload;
pub mod ipc;
pub mod shortcut;
pub mod user_event;

verus! {

} // verus!
