//! Client-side transport that streams framed messages (encoded video
//! frames and settings updates) over one shared connection, with a bounded
//! retry and reconnect policy for transient write failures.
//!
//! The library holds the logic: the wire format, the connection slot and the
//! retry state machine. The caller performs the network operations that the
//! state machine asks for and reports how each one went.

pub mod connection;
pub mod decode;
pub mod error;
pub mod frame;
pub mod retry;

pub use connection::{Connection, Outgoing};
pub use error::SendError;
pub use retry::{Event, Retry, Step, MAX_ATTEMPTS};
pub use frame::{
    encode_message, frame_message, frame_part, prepare_frame, prepare_settings, MessageKind,
    Phase, HEADER_LEN, MAX_PAYLOAD_LEN,
};

