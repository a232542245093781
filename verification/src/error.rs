use crate::state::State;
use vstd::prelude::*;

verus! {

/// What can go wrong in the protocol itself.
#[derive(Debug, Clone, Copy, PartialEq, Eq, Structural)]
#[allow(inconsistent_fields)]
pub enum Error {
    /// The operation is beyond what the device or the protocol can do.
    OutOfCapabilities,
    /// The device is not in the state that the protocol needs.
    InvalidState { got: State, expected: State },
    /// A transfer is larger than the protocol can count.
    MaximumTransferSizeExceeded,
    /// The device answered with fewer bytes than the answer has.
    ResponseTooShort { got: usize, expected: usize },
    /// The device reported a state that the protocol does not know.
    UnrecognizedStateCode(u8),
}

} // verus!
