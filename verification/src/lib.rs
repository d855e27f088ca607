//! Platform string-interchange core.
//!
//! This library models the string representations that cross a native API
//! boundary on platforms whose APIs consume wide (16-bit code unit),
//! nul-terminated text:
//!
//! * [`string`] holds the representations themselves: compile-time static
//!   strings, short-lived parameter strings, independently owned strings, and
//!   length-qualified views over nul-terminated buffers, together with the
//!   conversions between them.
//! * [`encoding`] is the conversion capability: a verified codec between
//!   application text and the native wide encoding, with a proved round trip.
//! * [`trampoline`] manufactures a non-owning native handle directly over a
//!   borrowed parameter string, so that the final copy before a native call
//!   can be elided.
//! * [`release_pool`] is the scoped native context: a token that certifies a
//!   native resource scope is active, with a checked nesting discipline.
//! * [`error`] wraps a native error value.

pub mod encoding;
pub mod error;
pub mod release_pool;
pub mod string;
pub mod trampoline;
