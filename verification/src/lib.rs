//! Automation engine for chat notifications.
//!
//! The library models user-declared automation rules (`models`), the
//! per-chat watch cache and notify-condition machine that watchers run
//! (`watch`), and the reconciliation step that keeps the set of running
//! watchers consistent with the latest configuration (`reconcile`).
//! Terminal screens that edit the configuration keep their state and key
//! handling here as well; all I/O (chat client, files, audio, drawing)
//! lives outside the library.

pub mod config;
pub mod config_screen;
pub mod keys;
pub mod loading_screen;
pub mod main_screen;
pub mod models;
pub mod notification_screen;
pub mod reconcile;
pub mod text;
pub mod watch;
