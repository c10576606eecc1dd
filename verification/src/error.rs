//! Why a call on the transport was turned down.

use vstd::prelude::*;

verus! {

/// The failures of the transport. Each is handed to the caller; nothing is
/// retried or remembered inside the transport.
#[derive(Clone, Copy, Debug, PartialEq, Eq, Structural)]
pub enum TransportError {
    /// The backing store could not be created, sized, written or mapped.
    Io,
    /// The region was opened before its creator had made it.
    NotFound,
    /// A structured write was handed data of the wrong shape.
    InvalidShape,
}

impl TransportError {
    /// Whether trying again later can help: only a region that is not there
    /// yet may still appear.
    pub open spec fn spec_is_recoverable(self) -> bool {
        self == TransportError::NotFound
    }

    /// Whether trying again later can help.
    pub fn is_recoverable(&self) -> (r: bool)
        ensures
            r == self.spec_is_recoverable(),
    {
        match self {
            TransportError::NotFound => true,
            TransportError::Io => false,
            TransportError::InvalidShape => false,
        }
    }
}

} // verus!
