use vstd::prelude::*;

verus! {

/// The error taxonomy of the service.
#[derive(Debug, Clone)]
pub enum ServiceError {
    /// Invalid sizing configuration: a zero bound on rows per batch.
    Configuration,
    /// A batch could not be converted to or from wire frames; carries the
    /// underlying codec's message.
    InternalEncoding(String),
    /// The protocol verb exists on the interface but is not supported.
    Unsupported,
}

} // verus!
