use vstd::prelude::*;

use crate::frame::Phase;

verus! {

/// Why sending a message failed.
#[derive(Clone, Copy, Debug, PartialEq, Eq, Structural)]
pub enum SendError {
    /// No connection is active.
    NotConnected,
    /// The frame text is not valid standard base64; nothing was written.
    Decode,
    /// The payload does not fit the 32-bit length field.
    TooLarge,
    /// Writing the given part failed on the last allowed attempt.
    Write(Phase),
    /// Opening a fresh connection after a write failure failed.
    Reconnect,
    /// Flushing the connection after a complete frame failed.
    Flush,
}

} // verus!
