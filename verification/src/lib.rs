//! Session controller for a terminal-resident version-control workspace.
//!
//! The crate holds the navigation model, the modal text-entry buffer, the
//! push pipeline decisions and the ANSI diff renderer; terminal drawing and
//! repository access are left to the surrounding binary.

pub mod action;
pub mod ansi;
pub mod app;
pub mod branch;
pub mod branch_tab;
pub mod getstatus;
pub mod git;
pub mod keys;
pub mod pages;
pub mod popup;
pub mod push;
pub mod repo;
pub mod status_tab;
pub mod text;

pub use pages::Pages;
pub use popup::Popup;
