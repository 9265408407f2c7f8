//! The client's side of one connection: what to do with each thing the
//! server sends.
//!
//! A driver connects, reads the twelve bytes of the handshake and hands
//! them to [`Client::on_handshake`]; from then on each answer names the next
//! I/O operation, and the driver reports its outcome to the method for that
//! phase. Handshake, header and payload come strictly in this order.

use vstd::prelude::*;
use crate::session::{progress_after, Progress, Receiver};
use crate::wire::{
    check_handshake, decode_header, frame_length, handshake_token, has_header_tag,
    lemma_le_value_bound, DecodeError, HANDSHAKE_SIZE, HEADER_SIZE, TAG_SIZE,
};

verus! {

/// Whether the client answers the server's handshake.
#[derive(Clone, Copy, Debug, PartialEq, Eq, Structural)]
pub enum HandshakeMode {
    /// Send the token back before reading the header.
    Acknowledge,
    /// Send nothing: the handshake goes one way only.
    ReceiveOnly,
}

/// Where a client stands in the protocol.
#[derive(Clone, Copy, Debug, PartialEq, Eq, Structural)]
pub enum ClientPhase {
    /// Waiting for the server's handshake.
    AwaitHandshake,
    /// Handshake accepted; waiting for the header.
    AwaitHeader,
    /// Header decoded; payload bytes are arriving.
    Receiving,
    /// The transfer has ended, complete or cut short by the server.
    Finished,
    /// The server broke the protocol; nothing more is read.
    Aborted,
}

/// What the driver does next.
#[derive(Clone, Copy, Debug, PartialEq, Eq, Structural)]
pub enum ClientAction {
    /// Read exactly one header, after sending the token back if
    /// `acknowledge` is set.
    ReadHeader { acknowledge: bool },
    /// Read at most `max` payload bytes: what the buffer holds, or what
    /// is still owed if that is less. `expected` is the length the header
    /// announced.
    ReadPayload { expected: u64, max: usize },
    /// Stop and report: `received` bytes arrived; `complete` tells whether
    /// that is all the header announced.
    Report { received: u64, complete: bool },
    /// Drop the connection and fail with this error.
    Abort(DecodeError),
}

/// One client-side connection.
#[derive(Clone, Copy, Debug, PartialEq, Eq, Structural)]
pub struct Client {
    /// Whether to answer the handshake.
    pub mode: HandshakeMode,
    /// Phase of the protocol.
    pub phase: ClientPhase,
    /// The transfer; before the header is decoded it expects nothing.
    pub session: Receiver,
}

/// What the client asks for after a payload read left its transfer as
/// `session`.
pub open spec fn action_after_read(session: Receiver) -> ClientAction {
    if session.progress == Progress::Continue {
        ClientAction::ReadPayload { expected: session.expected, max: session.read_limit() as usize }
    } else {
        ClientAction::Report {
            received: session.received,
            complete: session.progress == Progress::Complete,
        }
    }
}

impl Client {
    /// No more has been received than was announced.
    pub open spec fn wf(&self) -> bool {
        self.session.wf()
    }

    /// A client that has just connected and reads with a buffer of
    /// `chunk_size` bytes.
    pub fn new(mode: HandshakeMode, chunk_size: usize) -> (c: Client)
        ensures
            c.wf(),
            c.mode == mode,
            c.phase == ClientPhase::AwaitHandshake,
            c.session == (Receiver {
                expected: 0,
                chunk_size,
                received: 0,
                progress: Progress::Continue,
            }),
    {
        Client { mode, phase: ClientPhase::AwaitHandshake, session: Receiver::new(0, chunk_size) }
    }

    /// Judges the twelve bytes the server opened with. The token is
    /// accepted and the header is read next; anything else aborts the
    /// connection.
    pub fn on_handshake(&mut self, bytes: &[u8; HANDSHAKE_SIZE]) -> (action: ClientAction)
        requires
            old(self).phase == ClientPhase::AwaitHandshake,
        ensures
            final(self).mode == old(self).mode,
            final(self).session == old(self).session,
            bytes@ == handshake_token() ==> {
                &&& final(self).phase == ClientPhase::AwaitHeader
                &&& action == (ClientAction::ReadHeader {
                    acknowledge: old(self).mode == HandshakeMode::Acknowledge,
                })
            },
            bytes@ != handshake_token() ==> {
                &&& final(self).phase == ClientPhase::Aborted
                &&& action == ClientAction::Abort(DecodeError::HandshakeMismatch)
            },
    {
        match check_handshake(bytes) {
            Ok(()) => {
                self.phase = ClientPhase::AwaitHeader;
                let acknowledge = match self.mode {
                    HandshakeMode::Acknowledge => true,
                    HandshakeMode::ReceiveOnly => false,
                };
                ClientAction::ReadHeader { acknowledge }
            },
            Err(e) => {
                self.phase = ClientPhase::Aborted;
                ClientAction::Abort(e)
            },
        }
    }

    /// Judges the header. A frame with the tag starts a transfer of the
    /// length it announces, of which nothing has arrived yet: the first read
    /// asks for a buffer's worth, or for the whole payload if that is less.
    /// Any other frame aborts the connection.
    pub fn on_header(&mut self, frame: &[u8; HEADER_SIZE]) -> (action: ClientAction)
        requires
            old(self).phase == ClientPhase::AwaitHeader,
        ensures
            final(self).mode == old(self).mode,
            has_header_tag(frame@) ==> {
                &&& final(self).phase == ClientPhase::Receiving
                &&& final(self).session == (Receiver {
                    expected: frame_length(frame@) as u64,
                    chunk_size: old(self).session.chunk_size,
                    received: 0,
                    progress: Progress::Continue,
                })
                &&& final(self).wf()
                &&& action == action_after_read(final(self).session)
                &&& action == (ClientAction::ReadPayload {
                    expected: frame_length(frame@) as u64,
                    max: if old(self).session.chunk_size <= frame_length(frame@) {
                        old(self).session.chunk_size
                    } else {
                        frame_length(frame@) as usize
                    },
                })
            },
            !has_header_tag(frame@) ==> {
                &&& final(self).phase == ClientPhase::Aborted
                &&& final(self).session == old(self).session
                &&& action == ClientAction::Abort(DecodeError::InvalidHeader)
            },
    {
        match decode_header(frame) {
            Ok(expected) => {
                self.phase = ClientPhase::Receiving;
                self.session = Receiver::new(expected, self.session.chunk_size);
                proof {
                    lemma_le_value_bound(
                        frame@.subrange(TAG_SIZE as int, HEADER_SIZE as int),
                    );
                }
                ClientAction::ReadPayload { expected, max: self.session.next_read() }
            },
            Err(e) => {
                self.phase = ClientPhase::Aborted;
                ClientAction::Abort(e)
            },
        }
    }

    /// Records that the payload read just asked for returned `n` bytes.
    /// The client reads on, never asking for more than is still owed, until
    /// a read returns nothing or the total equals the announced length, then
    /// reports the total. The total never passes the announced length.
    pub fn on_read(&mut self, n: usize) -> (action: ClientAction)
        requires
            old(self).wf(),
            old(self).phase == ClientPhase::Receiving,
            old(self).session.progress == Progress::Continue,
            n <= old(self).session.read_limit(),
        ensures
            final(self).wf(),
            final(self).session.received <= final(self).session.expected,
            final(self).mode == old(self).mode,
            final(self).session == (Receiver {
                expected: old(self).session.expected,
                chunk_size: old(self).session.chunk_size,
                received: (old(self).session.received + n) as u64,
                progress: progress_after(
                    old(self).session.expected as nat,
                    old(self).session.received as nat,
                    n as nat,
                ),
            }),
            final(self).phase == if final(self).session.progress == Progress::Continue {
                ClientPhase::Receiving
            } else {
                ClientPhase::Finished
            },
            action == action_after_read(final(self).session),
    {
        let mut session = self.session;
        match session.on_read(n) {
            Progress::Continue => {
                self.session = session;
                ClientAction::ReadPayload { expected: session.expected, max: session.next_read() }
            },
            Progress::Complete => {
                self.session = session;
                self.phase = ClientPhase::Finished;
                ClientAction::Report { received: session.received, complete: true }
            },
            Progress::PeerClosed => {
                self.session = session;
                self.phase = ClientPhase::Finished;
                ClientAction::Report { received: session.received, complete: false }
            },
        }
    }
}

} // verus!
