//! A client library for a machine-lab web API: it interprets the JSON
//! envelopes the remote service answers with, maps machine records onto a
//! typed model, filters machine lists, and plans the local lab directory.
//! The surrounding binary does the HTTP and filesystem work and hands this
//! library plain values.

pub mod api;
pub mod dirs;
pub mod jsonv;
pub mod machine;
pub mod text;
