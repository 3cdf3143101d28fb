//! Multi-provider search aggregation for a desktop quick-launcher: result
//! types, query sanitation, ranking, a TTL-aware LRU result cache and the
//! search engine's registry, merge and fallback logic; beside them, the
//! scoring, result building and bookkeeping of the individual providers
//! (quick actions, bookmarks, clipboard history, applications, files,
//! recent files, web search), settings validation and hotkey checks.
//!
//! Waiting on providers, spawning processes and reading files happen
//! outside this crate: the engine hands out what to ask and takes back what
//! came, and each time-dependent function takes the time as a value.

pub mod error;
pub mod types;
pub mod text;
pub mod validation;
pub mod ranking;
pub mod cache;
pub mod engine;
pub mod quick_action;
pub mod settings;
pub mod theme;
pub mod autostart;
pub mod bookmark;
pub mod notification;
pub mod calculator;
pub mod clipboard;
pub mod everything;
pub mod app_search;
pub mod web_search;
pub mod icon_cache;
pub mod hotkey;
pub mod file_search;
pub mod recent_files;
pub mod logging;
