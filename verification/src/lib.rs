//! Verified core of a terminal multiplexer: identifier allocation, domains,
//! tabs and their pane lists, split geometry, the render cache, and the
//! messages that a zellij-backed pane sends to its server.

pub mod ids;
pub mod text;
pub mod error;
pub mod search;
pub mod terminal;
pub mod tab;
pub mod domain;
pub mod ssh;
pub mod render_cache;
pub mod zellij;
pub mod run_with_mux;
pub mod mux_tabs;
