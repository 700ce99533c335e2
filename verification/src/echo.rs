//! The mirror variant of the transfer.
//!
//! A mirroring peer sends every byte that it receives straight back, in the
//! order of arrival, until the other side closes its sending direction. The
//! client sends its file and at the same time folds what comes back into a
//! checksum. The wire contract of this library is the checksum variant of
//! the modules `client` and `handler`; the mirror variant is modelled here so
//! that what it returns can be held against it: both end in the checksum of
//! the bytes that were sent.

use vstd::prelude::*;
use crate::checksum::{
    data_events, lemma_stream_hash_of_whole_stream, xor_fold, StreamEvent, StreamHash,
};
use crate::error::{BenchError, ErrorKind};
use crate::handler::{ConnectionEvent, HandlerEvent};

verus! {

/// What the driver of a mirroring connection does next.
#[derive(Clone, Copy, Debug, PartialEq, Eq)]
pub enum EchoAction<'a> {
    /// Read from the peer and report what came.
    Read,
    /// Write these bytes back to the peer and report when they are written.
    Write(&'a [u8]),
    /// Nothing new: the write that was asked for is still under way.
    Wait,
    /// The peer has finished: close the connection.
    Close,
    /// The connection failed: drop it and report the failure.
    Abort,
}

/// What an action of a mirroring connection amounts to.
pub enum MirrorAction {
    Read,
    Write(Seq<u8>),
    Wait,
    Close,
    Abort,
}

impl<'a> View for EchoAction<'a> {
    type V = MirrorAction;

    open spec fn view(&self) -> MirrorAction {
        match *self {
            EchoAction::Read => MirrorAction::Read,
            EchoAction::Write(bytes) => MirrorAction::Write(bytes@),
            EchoAction::Wait => MirrorAction::Wait,
            EchoAction::Close => MirrorAction::Close,
            EchoAction::Abort => MirrorAction::Abort,
        }
    }
}

impl MirrorAction {
    /// The bytes that an action sends to the peer.
    pub open spec fn sent(self) -> Seq<u8> {
        match self {
            MirrorAction::Write(bytes) => bytes,
            _ => Seq::empty(),
        }
    }
}

/// The handler of one mirroring connection.
#[derive(Clone, Debug, PartialEq, Eq)]
pub enum EchoHandler {
    /// Waiting for bytes from the peer.
    Reading,
    /// The bytes that came last are being written back.
    Writing,
    /// The peer has finished sending; the exchange is complete.
    Closed,
    /// The connection failed while reading or while writing.
    Failed(BenchError),
}

impl EchoHandler {
    /// The state after a completion.
    ///
    /// Bytes that arrive are to be written back, and once they are written
    /// the handler reads again. The end of the peer's stream closes the
    /// exchange. A failure while reading or writing ends the handler as
    /// failed. A completion that the state does not wait for changes nothing.
    pub open spec fn after(self, event: ConnectionEvent) -> EchoHandler {
        match (self, event) {
            (EchoHandler::Reading, ConnectionEvent::Received(bytes)) => if bytes.len() == 0 {
                EchoHandler::Closed
            } else {
                EchoHandler::Writing
            },
            (EchoHandler::Writing, ConnectionEvent::Written) => EchoHandler::Reading,
            (EchoHandler::Reading, ConnectionEvent::Failed(detail)) => EchoHandler::Failed(
                BenchError { kind: ErrorKind::Io, detail },
            ),
            (EchoHandler::Writing, ConnectionEvent::Failed(detail)) => EchoHandler::Failed(
                BenchError { kind: ErrorKind::Io, detail },
            ),
            _ => self,
        }
    }

    /// What the driver is asked to do after a completion: to write back the
    /// very bytes that just arrived, or else what the new state stands for.
    pub open spec fn asks(self, event: ConnectionEvent) -> MirrorAction {
        match (self, event) {
            (EchoHandler::Reading, ConnectionEvent::Received(bytes)) => if bytes.len() == 0 {
                MirrorAction::Close
            } else {
                MirrorAction::Write(bytes)
            },
            _ => match self.after(event) {
                EchoHandler::Reading => MirrorAction::Read,
                EchoHandler::Writing => MirrorAction::Wait,
                EchoHandler::Closed => MirrorAction::Close,
                EchoHandler::Failed(_) => MirrorAction::Abort,
            },
        }
    }

    /// The state after a sequence of completions, taken in order.
    pub open spec fn after_all(self, events: Seq<ConnectionEvent>) -> EchoHandler
        decreases events.len(),
    {
        if events.len() == 0 {
            self
        } else {
            self.after_all(events.drop_last()).after(events.last())
        }
    }

    /// All the bytes that the handler asks to be written over a sequence of
    /// completions, in order.
    pub open spec fn mirrored(self, events: Seq<ConnectionEvent>) -> Seq<u8>
        decreases events.len(),
    {
        if events.len() == 0 {
            Seq::empty()
        } else {
            self.mirrored(events.drop_last()) + self.after_all(events.drop_last()).asks(
                events.last(),
            ).sent()
        }
    }

    /// How the connection ended, once it has.
    pub open spec fn ending(self) -> Option<Result<(), BenchError>> {
        match self {
            EchoHandler::Closed => Some(Ok(())),
            EchoHandler::Failed(error) => Some(Err(error)),
            _ => None,
        }
    }

    /// The handler of a connection that was just accepted. Its driver begins
    /// by reading.
    pub fn new() -> (handler: EchoHandler)
        ensures
            handler == EchoHandler::Reading,
    {
        EchoHandler::Reading
    }

    /// Takes one completion and says what to do next.
    pub fn on_event<'a>(self, event: HandlerEvent<'a>) -> (next: (EchoHandler, EchoAction<'a>))
        ensures
            next.0 == self.after(event@),
            next.1@ == self.asks(event@),
    {
        match self {
            EchoHandler::Reading => match event {
                HandlerEvent::Received(bytes) => {
                    if bytes.len() == 0 {
                        (EchoHandler::Closed, EchoAction::Close)
                    } else {
                        (EchoHandler::Writing, EchoAction::Write(bytes))
                    }
                },
                HandlerEvent::Failed(detail) => (
                    EchoHandler::Failed(BenchError::new(ErrorKind::Io, detail)),
                    EchoAction::Abort,
                ),
                HandlerEvent::Written => (EchoHandler::Reading, EchoAction::Read),
            },
            EchoHandler::Writing => match event {
                HandlerEvent::Written => (EchoHandler::Reading, EchoAction::Read),
                HandlerEvent::Failed(detail) => (
                    EchoHandler::Failed(BenchError::new(ErrorKind::Io, detail)),
                    EchoAction::Abort,
                ),
                HandlerEvent::Received(_) => (EchoHandler::Writing, EchoAction::Wait),
            },
            EchoHandler::Closed => (EchoHandler::Closed, EchoAction::Close),
            EchoHandler::Failed(error) => (EchoHandler::Failed(error), EchoAction::Abort),
        }
    }

    /// How the connection ended, once it has.
    pub fn outcome(self) -> (ending: Option<Result<(), BenchError>>)
        ensures
            ending == self.ending(),
    {
        match self {
            EchoHandler::Closed => Some(Ok(())),
            EchoHandler::Failed(error) => Some(Err(error)),
            _ => None,
        }
    }
}

/// The result of a mirrored transfer, once its two halves have both
/// finished: sending the file, and folding what came back.
///
/// The failure of the sending half, or else that of the receiving half, is an
/// I/O failure with its detail; with neither, the result is the checksum of
/// what came back.
pub open spec fn echo_verdict(sent: Result<(), String>, received: Result<u8, String>) -> Result<
    u8,
    BenchError,
> {
    match (sent, received) {
        (Err(detail), _) => Err(BenchError { kind: ErrorKind::Io, detail }),
        (Ok(_), Err(detail)) => Err(BenchError { kind: ErrorKind::Io, detail }),
        (Ok(_), Ok(checksum)) => Ok(checksum),
    }
}

/// Decides the result of a mirrored transfer from the results of its two
/// halves.
pub fn echo_result(sent: Result<(), String>, received: Result<u8, String>) -> (result: Result<
    u8,
    BenchError,
>)
    ensures
        result == echo_verdict(sent, received),
{
    match sent {
        Err(detail) => Err(BenchError::new(ErrorKind::Io, detail)),
        Ok(_) => match received {
            Err(detail) => Err(BenchError::new(ErrorKind::Io, detail)),
            Ok(checksum) => Ok(checksum),
        },
    }
}

/// The completions of a mirrored exchange in which the peer's bytes arrive in
/// `chunks` and each chunk is written back before the next is read.
pub open spec fn mirror_events(chunks: Seq<Seq<u8>>) -> Seq<ConnectionEvent>
    decreases chunks.len(),
{
    if chunks.len() == 0 {
        Seq::empty()
    } else {
        mirror_events(chunks.drop_last()).push(ConnectionEvent::Received(chunks.last())).push(
            ConnectionEvent::Written,
        )
    }
}

/// What comes back is what was sent, byte for byte. Whatever the chunks in
/// which the bytes arrive, none of them empty, the handler asks for exactly
/// those bytes to be written back, in their order, and is reading again
/// after each chunk; the end of the peer's stream then closes the exchange
/// with nothing more written.
pub proof fn lemma_mirror_returns_what_was_sent(chunks: Seq<Seq<u8>>)
    requires
        forall|i: int| 0 <= i < chunks.len() ==> (#[trigger] chunks[i]).len() > 0,
    ensures
        ({
            let events = mirror_events(chunks);
            let end = ConnectionEvent::Received(Seq::empty());
            &&& EchoHandler::Reading.after_all(events) == EchoHandler::Reading
            &&& EchoHandler::Reading.mirrored(events) == chunks.flatten()
            &&& EchoHandler::Reading.after_all(events.push(end)) == EchoHandler::Closed
            &&& EchoHandler::Reading.mirrored(events.push(end)) == chunks.flatten()
            &&& EchoHandler::Closed.ending() == Some(Ok::<(), BenchError>(()))
        }),
    decreases chunks.len(),
{
    let start = EchoHandler::Reading;
    let events = mirror_events(chunks);
    let end = ConnectionEvent::Received(Seq::empty());
    chunks.lemma_flatten_and_flatten_alt_are_equivalent();
    if chunks.len() > 0 {
        let rest = chunks.drop_last();
        rest.lemma_flatten_and_flatten_alt_are_equivalent();
        lemma_mirror_returns_what_was_sent(rest);
        let earlier = mirror_events(rest);
        let received = earlier.push(ConnectionEvent::Received(chunks.last()));
        assert(received.drop_last() =~= earlier);
        assert(events.drop_last() =~= received);
        assert(start.after_all(received) == EchoHandler::Writing);
        assert(start.mirrored(received) =~= rest.flatten() + chunks.last());
        assert(start.mirrored(events) =~= start.mirrored(received));
        assert(chunks.flatten() =~= rest.flatten() + chunks.last());
    }
    assert(events.push(end).drop_last() =~= events);
    assert(start.mirrored(events.push(end)) =~= start.mirrored(events));
}

/// The two variants of the transfer agree. A client that folds what a
/// mirroring peer sends back, chunk by chunk and to the end, ends with the
/// checksum of the bytes it sent: the byte that a peer of the checksum
/// variant answers with.
pub proof fn lemma_mirrored_checksum_is_that_of_payload(chunks: Seq<Seq<u8>>)
    requires
        forall|i: int| 0 <= i < chunks.len() ==> (#[trigger] chunks[i]).len() > 0,
    ensures
        ({
            let back = EchoHandler::Reading.mirrored(mirror_events(chunks));
            let folded = StreamHash::Reading(0).after_all(data_events(chunks)).after(
                StreamEvent::Data(Seq::empty()),
            );
            &&& back == chunks.flatten()
            &&& folded == StreamHash::Done(xor_fold(back))
            &&& echo_verdict(Ok(()), Ok(xor_fold(back))) == Ok::<u8, BenchError>(
                xor_fold(chunks.flatten()),
            )
        }),
{
    lemma_mirror_returns_what_was_sent(chunks);
    lemma_stream_hash_of_whole_stream(chunks);
}

} // verus!
