use vstd::prelude::*;

verus! {

/// A failed HTTP exchange: connection refused, timeout, or a failed body
/// read.  The service folds every such failure into this one category; the
/// message carries whatever the transport reported.
#[derive(Clone, Debug, PartialEq, Eq)]
pub struct TransportError {
    pub message: String,
}

impl TransportError {
    pub fn new(message: String) -> (r: Self)
        ensures
            r.message == message,
    {
        TransportError { message }
    }
}

} // verus!
