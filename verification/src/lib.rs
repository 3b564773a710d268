//! Core of a clipboard observer: an immutable snapshot model of the
//! clipboard's content, a cheap identity hash with change detection, a
//! fallback state machine for the platform event sources, a single-writer
//! mailbox for concurrent readers, and the watcher logic that ties them
//! together, with QR encoding and decoding consumed as outside capabilities.

pub mod console;
pub mod detector;
pub mod generator;
pub mod identity;
pub mod mailbox;
pub mod snapshot;
pub mod source;
pub mod text;
pub mod watcher;
