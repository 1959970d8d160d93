//! Native backend of a webview desktop shell.
//!
//! Three request handlers are exposed to the UI layer: accepting or refusing
//! a write request, answering a read request with its reply text, and
//! planning the platform-specific command that reveals a file in the OS
//! file manager. The planning is pure: it decides which program to run and
//! with which arguments, and the surrounding (unverified) shell performs the
//! actual spawn and reports failures through [`errors::RevealError`].

pub mod commands;
pub mod errors;
pub mod path_text;
pub mod plan;
