//! Logic of a small HTTP server: it answers a health check, serves files of a
//! fixed static directory (retrying a missed path with an `.html` suffix), and
//! accepts a single-file upload that is appended to one destination file.
//!
//! Everything here is plain computation over paths, byte payloads and session
//! state; the listener, the filesystem and the multipart decoding live outside
//! the library and hand plain values in.

pub mod health;
pub mod routing;
pub mod static_files;
pub mod upload;
