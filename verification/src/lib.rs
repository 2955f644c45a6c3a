//! Foundational HTTP/1.1 protocol value types: status codes, header
//! field/value pairs, request method tokens, and protocol versions.
//!
//! These types encode the parsing grammar, case-insensitive comparison
//! semantics, and canonical textual representations that a small HTTP
//! server's connection and request/response layers rely on. Everything
//! here is a pure, immutable value type: no I/O, no shared state.

pub mod header;
pub mod method;
pub mod status;
pub mod text;
pub mod version;

pub use header::Header;
pub use header::HeaderField;
pub use header::ParseError;
pub use method::Method;
pub use status::StatusCode;
pub use version::HTTPVersion;
