//! The server's side: the payload that every connection streams, and the
//! decisions of one connection.
//!
//! A driver accepts a connection, makes a [`Connection`] for it, sends the
//! handshake token, reads the twelve bytes the client answers with and
//! hands them to [`Connection::on_handshake`]; from then on each answer
//! names the next I/O operation. A connection holds nothing but its own
//! cursor: whatever happens on one never touches another, nor the listener.

use vstd::prelude::*;
use crate::session::{progress_after, Progress, Sender};
use crate::wire::{
    check_handshake, handshake_token, header, header_frame, DecodeError, HANDSHAKE_SIZE,
    HEADER_SIZE,
};

verus! {

/// Overwrites `buf` with bytes from `rand::thread_rng`, through
/// `rand::Rng::fill` on the whole slice. Not verified; the contract claims
/// only that the call, which writes through a slice, leaves the number of
/// bytes as it was. Nothing is claimed of the bytes themselves: they differ
/// from call to call.
#[verifier::external_body]
fn fill_random(buf: &mut Vec<u8>)
    ensures
        final(buf)@.len() == old(buf)@.len(),
{
    rand::Rng::fill(&mut rand::thread_rng(), &mut buf[..]);
}

/// Makes the payload: `size` random bytes, drawn once and never changed
/// afterwards, so that any number of connections may read it at once.
pub fn generate_payload(size: usize) -> (payload: Vec<u8>)
    ensures
        payload@.len() == size,
{
    let mut payload: Vec<u8> = vec![0u8; size];
    fill_random(&mut payload);
    payload
}

/// Where a connection stands in the protocol.
#[derive(Clone, Copy, Debug, PartialEq, Eq, Structural)]
pub enum ServerPhase {
    /// Token sent; waiting for the client to send it back.
    AwaitHandshake,
    /// Handshake accepted; header and payload are going out.
    Sending,
    /// The transfer has ended, complete or cut short by the client.
    Finished,
    /// The client broke the protocol; this connection is dropped.
    Aborted,
}

/// What the driver does next on this connection.
#[derive(Clone, Copy, Debug, PartialEq, Eq)]
pub enum ServerAction {
    /// Send `frame`, start the clock, then offer the payload bytes from
    /// `start` up to `end` to one write.
    SendHeader { frame: [u8; HEADER_SIZE], start: usize, end: usize },
    /// Offer the payload bytes from `start` up to `end` to one write.
    Write { start: usize, end: usize },
    /// Stop the clock, close the write side and report: `sent` bytes went
    /// out; `complete` tells whether that is the whole payload.
    Shutdown { sent: usize, complete: bool },
    /// Drop the connection and fail with this error. Other connections and
    /// the listener go on.
    Abort(DecodeError),
}

/// One accepted connection.
#[derive(Clone, Copy, Debug, PartialEq, Eq, Structural)]
pub struct Connection {
    /// Phase of the protocol.
    pub phase: ServerPhase,
    /// The transfer of the shared payload over this connection.
    pub session: Sender,
}

/// What a connection asks for after a write left its transfer as `session`.
pub open spec fn action_after_write(session: Sender) -> ServerAction {
    if session.progress == Progress::Continue {
        ServerAction::Write { start: session.pos, end: session.chunk_end() as usize }
    } else {
        ServerAction::Shutdown {
            sent: session.pos,
            complete: session.progress == Progress::Complete,
        }
    }
}

impl Connection {
    /// The transfer's cursor is within the payload.
    pub open spec fn wf(&self) -> bool {
        self.session.wf()
    }

    /// A connection that will stream a payload of `payload_len` bytes in
    /// chunks of at most `chunk_size`.
    pub fn new(payload_len: usize, chunk_size: usize) -> (c: Connection)
        ensures
            c.wf(),
            c.phase == ServerPhase::AwaitHandshake,
            c.session == (Sender {
                len: payload_len,
                chunk_size,
                pos: 0,
                progress: Progress::Continue,
            }),
    {
        Connection {
            phase: ServerPhase::AwaitHandshake,
            session: Sender::new(payload_len, chunk_size),
        }
    }

    /// Judges the twelve bytes the client answered with. The token is
    /// accepted: the header announcing the payload's length goes out, then
    /// the first chunk. Anything else aborts this connection.
    pub fn on_handshake(&mut self, bytes: &[u8; HANDSHAKE_SIZE]) -> (action: ServerAction)
        requires
            old(self).wf(),
            old(self).phase == ServerPhase::AwaitHandshake,
        ensures
            final(self).session == old(self).session,
            bytes@ == handshake_token() ==> {
                &&& final(self).phase == ServerPhase::Sending
                &&& action matches ServerAction::SendHeader { frame, start, end }
                &&& frame@ == header_frame(old(self).session.len as u64)
                &&& start == old(self).session.pos
                &&& end == old(self).session.chunk_end()
            },
            bytes@ != handshake_token() ==> {
                &&& final(self).phase == ServerPhase::Aborted
                &&& action == ServerAction::Abort(DecodeError::HandshakeMismatch)
            },
    {
        match check_handshake(bytes) {
            Ok(()) => {
                self.phase = ServerPhase::Sending;
                let range = self.session.next_chunk();
                ServerAction::SendHeader {
                    frame: header(self.session.len),
                    start: range.0,
                    end: range.1,
                }
            },
            Err(e) => {
                self.phase = ServerPhase::Aborted;
                ServerAction::Abort(e)
            },
        }
    }

    /// Records that a write took `n` bytes of the chunk offered. The
    /// cursor moves by exactly `n`. The connection writes on from there
    /// until the payload is out or a write takes nothing, then shuts down.
    pub fn on_written(&mut self, n: usize) -> (action: ServerAction)
        requires
            old(self).wf(),
            old(self).phase == ServerPhase::Sending,
            old(self).session.progress == Progress::Continue,
            old(self).session.pos + n <= old(self).session.chunk_end(),
        ensures
            final(self).wf(),
            final(self).session == (Sender {
                len: old(self).session.len,
                chunk_size: old(self).session.chunk_size,
                pos: (old(self).session.pos + n) as usize,
                progress: progress_after(
                    old(self).session.len as nat,
                    old(self).session.pos as nat,
                    n as nat,
                ),
            }),
            final(self).phase == if final(self).session.progress == Progress::Continue {
                ServerPhase::Sending
            } else {
                ServerPhase::Finished
            },
            action == action_after_write(final(self).session),
    {
        let mut session = self.session;
        match session.on_written(n) {
            Progress::Continue => {
                self.session = session;
                let range = session.next_chunk();
                ServerAction::Write { start: range.0, end: range.1 }
            },
            Progress::Complete => {
                self.session = session;
                self.phase = ServerPhase::Finished;
                ServerAction::Shutdown { sent: session.pos, complete: true }
            },
            Progress::PeerClosed => {
                self.session = session;
                self.phase = ServerPhase::Finished;
                ServerAction::Shutdown { sent: session.pos, complete: false }
            },
        }
    }
}

} // verus!
