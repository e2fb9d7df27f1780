//! A streaming key-discovery engine over an object-storage bucket listing.
//!
//! Keys are enumerated page by page, filtered first by an optional pattern on
//! the key name and then — lazily, only for keys that already passed the key
//! stage — by an optional pattern on the decoded object contents.  Scanning
//! stops early when a configured limit on scanned keys or on hits is reached,
//! and per-class tolerance flags decide whether a malformed listing page or an
//! unreadable key aborts the search or is skipped.
//!
//! The engine itself performs no I/O: a caller fetches pages and object
//! bodies and feeds them in as events, so the filtering, limit, and tolerance
//! logic here is verified for every sequence of outcomes the network can
//! produce.

pub mod engine;
pub mod laws;
pub mod model;
pub mod pattern;
pub mod request;
pub mod search;
