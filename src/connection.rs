use vstd::prelude::*;
use vstd::string::StringSliceAdditionalSpecFns;

use crate::error::SendError;
use crate::frame::{
    framed, framed_base64, prepare_frame, prepare_settings, MessageKind, HEADER_LEN,
};
use crate::retry::{Retry, Step};

verus! {

/// A message ready to go out: its encoded bytes, a fresh retry state, and
/// the connection taken out of the slot for the length of the send.
pub struct Outgoing<C> {
    pub frame: Vec<u8>,
    pub retry: Retry,
    pub conn: C,
}

/// `r` hands out the encoded message `expected` with a fresh retry state,
/// or fails as `expected` does.
pub open spec fn outgoing_outcome<C>(r: Result<Outgoing<C>, SendError>, expected: Result<Seq<u8>, SendError>) -> bool {
    match expected {
        Ok(bytes) => r is Ok && r->Ok_0.frame@ == bytes && r->Ok_0.frame@.len() >= HEADER_LEN
            && r->Ok_0.retry == Retry::start_spec(),
        Err(e) => r is Err && r->Err_0 == e,
    }
}

/// The slot that holds the one active connection, if any. Every transport
/// operation goes through it, under the caller's lock.
pub struct Connection<C> {
    slot: Option<C>,
}

impl<C> View for Connection<C> {
    type V = Option<C>;

    closed spec fn view(&self) -> Option<C> {
        self.slot
    }
}

impl<C> Connection<C> {
    /// An empty slot: not connected.
    pub fn new() -> (r: Connection<C>)
        ensures
            r@ is None,
    {
        Connection { slot: None }
    }

    pub fn is_connected(&self) -> (r: bool)
        ensures
            r == self@ is Some,
    {
        self.slot.is_some()
    }

    /// Installs a freshly opened connection. The one it replaces, if any, is
    /// handed back so that the caller decides whether to shut it down.
    pub fn connect(&mut self, c: C) -> (previous: Option<C>)
        ensures
            final(self)@ == Some(c),
            previous == old(self)@,
    {
        let previous = self.slot.take();
        self.slot = Some(c);
        previous
    }

    /// Empties the slot and hands back the connection to shut down, if there
    /// was one. With no connection this changes nothing and is no error.
    pub fn disconnect(&mut self) -> (r: Option<C>)
        ensures
            final(self)@ is None,
            r == old(self)@,
            old(self)@ is None ==> r is None && *final(self) == *old(self),
    {
        self.slot.take()
    }

    /// Prepares a frame message from its base64 text and takes the active
    /// connection out of the slot for the send. Without an active connection
    /// it fails with `NotConnected` before anything else and hands out
    /// nothing to write. On an error the slot is unchanged.
    pub fn send_frame(&mut self, data: &str) -> (r: Result<Outgoing<C>, SendError>)
        ensures
            old(self)@ is None ==> r is Err && r->Err_0 == SendError::NotConnected,
            old(self)@ is Some ==> outgoing_outcome(r, framed_base64(data.spec_bytes())),
            r is Ok ==> final(self)@ is None && old(self)@ == Some(r->Ok_0.conn),
            r is Err ==> final(self)@ == old(self)@,
    {
        if self.slot.is_none() {
            return Err(SendError::NotConnected);
        }
        match prepare_frame(data) {
            Ok(frame) => self.hand_out(frame),
            Err(e) => Err(e),
        }
    }

    /// Prepares a settings message and takes the active connection out of
    /// the slot for the send. Without an active connection it fails with
    /// `NotConnected` and hands out nothing to write. On an error the slot is
    /// unchanged.
    pub fn change_settings(&mut self, text: &str) -> (r: Result<Outgoing<C>, SendError>)
        ensures
            old(self)@ is None ==> r is Err && r->Err_0 == SendError::NotConnected,
            old(self)@ is Some ==> outgoing_outcome(r, framed(MessageKind::Settings, text.spec_bytes())),
            r is Ok ==> final(self)@ is None && old(self)@ == Some(r->Ok_0.conn),
            r is Err ==> final(self)@ == old(self)@,
    {
        if self.slot.is_none() {
            return Err(SendError::NotConnected);
        }
        match prepare_settings(text) {
            Ok(frame) => self.hand_out(frame),
            Err(e) => Err(e),
        }
    }

    fn hand_out(&mut self, frame: Vec<u8>) -> (r: Result<Outgoing<C>, SendError>)
        requires
            old(self)@ is Some,
        ensures
            r is Ok,
            r->Ok_0.frame == frame,
            r->Ok_0.retry == Retry::start_spec(),
            old(self)@ == Some(r->Ok_0.conn),
            final(self)@ is None,
    {
        match self.slot.take() {
            Some(conn) => Ok(Outgoing { frame, retry: Retry::start(), conn }),
            None => Err(SendError::NotConnected),
        }
    }

    /// Ends a send on connection `c`. After a sent message `c` goes back into
    /// the slot. After a failed send the slot stays empty and `c` is handed
    /// back to be shut down, so that no part of the message is left on a
    /// connection still in use.
    pub fn finish(&mut self, c: C, r: &Retry) -> (shut: Option<C>)
        requires
            old(self)@ is None,
            r.step is Sent || r.step is Failed,
        ensures
            r.step is Sent ==> final(self)@ == Some(c) && shut is None,
            r.step is Failed ==> final(self)@ is None && shut == Some(c),
    {
        match r.step {
            Step::Sent => {
                self.slot = Some(c);
                None
            },
            _ => Some(c),
        }
    }
}

} // verus!
