use vstd::prelude::*;

verus! {

/// Error taxonomy shared across the protocol stack. The header codec
/// produces four of its kinds; all are non-retryable at this layer.
#[derive(Copy, Clone, Debug, PartialEq, Eq, Structural)]
pub enum ResponseStatus {
    /// The magic number or the declared header length did not match the
    /// protocol constants.
    InvalidHeader,
    /// The underlying byte input or output failed: a timeout, or a read or
    /// write that ended before the requested length.
    ConnectionError,
    /// An outgoing header could not be serialised, or an incoming one could
    /// not be structurally decoded.
    InvalidEncoding,
    /// The frame carries a wire protocol version other than the supported
    /// one.
    WireProtocolVersionNotSupported,
}

} // verus!
