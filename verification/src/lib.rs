//! Clipboard-history logic: content classification, previews, content hashes,
//! capture decisions, hotkey-mode state, version comparison and the
//! device-flow sign-in decisions.
pub mod text;
pub mod hashing;
pub mod classify;
pub mod clipboard;
pub mod capture;
pub mod stamp;
pub mod version;
pub mod window;
pub mod watcher;
pub mod hotkey;
pub mod keyboard;
pub mod github;
