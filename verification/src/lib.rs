//! Verified core of a browser shell: tab, navigation, chrome, print,
//! developer tools, sync and session logic.
use vstd::prelude::*;

pub mod types;
pub mod menu;
pub mod menu_layout;
pub mod crash_recovery;
pub mod text;
pub mod seqs;
pub mod chrome;
pub mod navigation;
pub mod address_bar;
pub mod toolbar;
pub mod shortcuts;
pub mod tab_bar;
pub mod tab_drag;
pub mod print;
pub mod devtools;
pub mod sync;
pub mod sync_manager;
pub mod tabs;
pub mod tab_impl;
pub mod process;
pub mod session;
pub mod theme;
pub mod settings;
pub mod webview;
pub mod embedded;
pub mod user_settings;

verus! {
} // verus!
