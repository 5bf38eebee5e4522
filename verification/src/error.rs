use vstd::prelude::*;

verus! {

/// Why an exchange ended without a response.
#[derive(Debug, Clone, Copy, PartialEq, Eq, Structural)]
pub enum RpcError {
    /// Accepting, connecting, reading or writing on the transport failed.
    ConnectionError,
    /// Bytes did not decode as a request, as a response or as a typed payload.
    MalformedPayload,
    /// No binding answers to the name that the request carries.
    UnknownService,
    /// A value could not be encoded into bytes.
    SerializationFailure,
}

} // verus!
