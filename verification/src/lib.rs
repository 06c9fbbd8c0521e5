//! Verified codec for the fixed 30-byte wire header frame of protocol
//! version 1.0: little-endian serialisation of the header fields behind a
//! magic number, a declared content length and the version bytes, and a
//! strictly gated decoder over a byte-input capability.

pub mod header;
pub mod status;
pub mod stream;

pub use header::WireHeader;
pub use status::ResponseStatus;
pub use stream::InputStream;
