//! Session manager for status-bar popup menus: which menu is open, which one
//! is pinned, and the decisions behind hover, click and leave events.
pub mod config;
pub mod control;
pub mod menu;
pub mod modules;
pub mod status;
pub mod text;
pub mod watcher;
pub mod window;
