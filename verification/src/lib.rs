//! A minimal pastebin / short-link library: entries made of a kind
//! (link or plain text), a content string, a password and a read
//! counter, persisted under four related keys of a flat key-value
//! store and driven by a small create / update / delete / read state
//! machine.

pub mod keys;
pub mod be64;
pub mod store;
pub mod entry;
pub mod handler;
pub mod laws;
