//! A generic error container with HTTP 4xx or 5xx status code semantics and
//! string context.
//!
//! This crate tries to find the balance between too many error variants and
//! zero context: a failing `Result` is marked with an [`ErrorKind`] and with a
//! description of what the caller was attempting, and keeps the failure it
//! came from as its cause.
//!
//! ```text
//! let config = read_file(path)
//!     .not_found("Failed to read file")
//!     .internal_error("Config file is not available");
//! ```
//!
//! An [`ErrorStatus`] can be converted to its status code (`u16`) or to the
//! pair of status code and context (`(u16, String)`) for easier integration
//! with HTTP services.

mod context;
mod http;
mod kind;
pub mod laws;
mod result;
mod status;

pub use context::Context;
pub use kind::ErrorKind;
pub use result::{annotated, annotated_lazy, outcome, ResultExt};
pub use status::{debug_rendered, rendered, ErrorStatus, StatusView};
