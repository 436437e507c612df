//! Decoding of single-entry, path-keyed "file data" blocks out of a JSON
//! value tree, together with the enclosing event-notification record.
//!
//! The core of the library is [`decode::decode`], which asserts the exact
//! shape `{ "<path>": { "contents": "...", "filetypes": [...] } }` and
//! flattens it into a [`decode::FileRecord`].

pub mod decode;
pub mod event;
pub mod json;
pub mod parse;
