//! Native shell of a desktop chat client.
//!
//! The shell creates one application window, points an embedded webview at a
//! fixed remote URL, sets the window title, opens the developer tools in
//! debug builds, and exposes a single accessor that hands the server base
//! URL to the embedded web content. This crate holds everything the shell
//! decides — the configured constants, the setup plan, the startup state
//! machine and the fatal-error taxonomy — with contracts; the host GUI
//! framework merely carries the decisions out.

pub mod config;
pub mod startup;
