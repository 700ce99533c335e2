//! The sending side of the checksum protocol.
//!
//! The client connects, streams a file to the peer, closes its sending
//! direction while it keeps the receiving one open, and then reads exactly
//! one byte: the checksum that the peer computed. Closing the sending
//! direction first is what makes the peer answer at all, so the client never
//! asks for the read before that is done.

use vstd::prelude::*;
use vstd::string::StringExecFns;
use crate::checksum::xor_fold;
use crate::error::{BenchError, ErrorKind, Failure};
use crate::handler::{
    lemma_handler_answers_with_checksum, reading_steps, ChecksumHandler, ConnectionEvent,
    HandlerAction, HandlerStep,
};

verus! {

/// A completion, as the driver of a transfer reports it.
#[derive(Debug, PartialEq, Eq)]
pub enum ClientEvent {
    /// What was asked for is done.
    Completed,
    /// The read delivered the peer's answer.
    Checksum(u8),
    /// The read found the connection closed, with no byte delivered.
    EndOfStream,
    /// What was asked for failed; carries the detail.
    Failed(String),
}

/// What the driver of a transfer does next.
#[derive(Clone, Copy, Debug, PartialEq, Eq, Structural)]
pub enum ClientAction {
    /// Open the connection to the peer.
    Connect,
    /// Open the file that is to be sent.
    OpenFile,
    /// Stream the whole file to the peer.
    SendFile,
    /// Close the sending direction and keep the receiving one open.
    HalfClose,
    /// Read one byte from the peer.
    ReadChecksum,
    /// The transfer is complete: this is the peer's checksum.
    Finish(u8),
    /// The transfer failed.
    Abort,
}

/// The detail of the failure of a transfer whose peer closed the connection
/// before it sent its answer.
pub open spec fn closed_early() -> Seq<char> {
    "connection closed before the checksum byte"@
}

/// A transfer on its way.
#[derive(Clone, Debug, PartialEq, Eq)]
pub enum TransferClient {
    /// The connection is being opened.
    Connecting,
    /// The file is being opened.
    Opening,
    /// The file is being streamed to the peer.
    Sending,
    /// The sending direction is being closed.
    HalfClosing,
    /// The peer's answer is being read.
    AwaitingChecksum,
    /// The peer answered with this checksum.
    Done(u8),
    /// The peer closed the connection before it answered.
    ClosedEarly,
    /// An action of the transfer failed.
    Failed(BenchError),
}

impl TransferClient {
    /// What the driver does next in this state.
    pub open spec fn action(self) -> ClientAction {
        match self {
            TransferClient::Connecting => ClientAction::Connect,
            TransferClient::Opening => ClientAction::OpenFile,
            TransferClient::Sending => ClientAction::SendFile,
            TransferClient::HalfClosing => ClientAction::HalfClose,
            TransferClient::AwaitingChecksum => ClientAction::ReadChecksum,
            TransferClient::Done(checksum) => ClientAction::Finish(checksum),
            TransferClient::ClosedEarly => ClientAction::Abort,
            TransferClient::Failed(_) => ClientAction::Abort,
        }
    }

    /// The kind of failure that a failed action of this state amounts to: a
    /// connect failure while connecting, a protocol failure while closing the
    /// sending direction, since the peer then never sees the end of the
    /// stream, and an I/O failure in every other state.
    pub open spec fn failure_kind(self) -> ErrorKind {
        match self {
            TransferClient::Connecting => ErrorKind::Connect,
            TransferClient::HalfClosing => ErrorKind::Protocol,
            _ => ErrorKind::Io,
        }
    }

    /// Whether the transfer has ended, well or not.
    pub open spec fn ended(self) -> bool {
        self is Done || self is ClosedEarly || self is Failed
    }

    /// The state after a completion.
    ///
    /// Each completed action leads to the next one, in the order connect,
    /// open, send, close the sending direction, read. The byte that is read
    /// ends the transfer well; a connection found closed instead ends it as
    /// closed early. A failed action ends it with a failure of the kind of
    /// [`Self::failure_kind`]. A completion that the state does not wait for
    /// changes nothing, and nothing changes a transfer that has ended.
    pub open spec fn after(self, event: ClientEvent) -> TransferClient {
        match (self, event) {
            (TransferClient::Done(_), _) => self,
            (TransferClient::ClosedEarly, _) => self,
            (TransferClient::Failed(_), _) => self,
            (_, ClientEvent::Failed(detail)) => TransferClient::Failed(
                BenchError { kind: self.failure_kind(), detail },
            ),
            (TransferClient::Connecting, ClientEvent::Completed) => TransferClient::Opening,
            (TransferClient::Opening, ClientEvent::Completed) => TransferClient::Sending,
            (TransferClient::Sending, ClientEvent::Completed) => TransferClient::HalfClosing,
            (TransferClient::HalfClosing, ClientEvent::Completed) => TransferClient::AwaitingChecksum,
            (TransferClient::AwaitingChecksum, ClientEvent::Checksum(checksum)) => TransferClient::Done(
                checksum,
            ),
            (TransferClient::AwaitingChecksum, ClientEvent::EndOfStream) => TransferClient::ClosedEarly,
            _ => self,
        }
    }

    /// The state after a sequence of completions, taken in order.
    pub open spec fn after_all(self, events: Seq<ClientEvent>) -> TransferClient
        decreases events.len(),
    {
        if events.len() == 0 {
            self
        } else {
            self.after_all(events.drop_last()).after(events.last())
        }
    }

    /// How the transfer ended, once it has: with the peer's checksum, with a
    /// protocol failure if the peer closed the connection before it answered,
    /// or with the failure of the action that failed.
    pub open spec fn ending(self) -> Option<Result<u8, Failure>> {
        match self {
            TransferClient::Done(checksum) => Some(Ok(checksum)),
            TransferClient::ClosedEarly => Some(
                Err(Failure { kind: ErrorKind::Protocol, detail: closed_early() }),
            ),
            TransferClient::Failed(error) => Some(Err(error@)),
            _ => None,
        }
    }

    /// A transfer that has not begun.
    pub fn new() -> (client: TransferClient)
        ensures
            client == TransferClient::Connecting,
    {
        TransferClient::Connecting
    }

    /// Says what to do next.
    pub fn next_action(&self) -> (action: ClientAction)
        ensures
            action == self.action(),
    {
        match self {
            TransferClient::Connecting => ClientAction::Connect,
            TransferClient::Opening => ClientAction::OpenFile,
            TransferClient::Sending => ClientAction::SendFile,
            TransferClient::HalfClosing => ClientAction::HalfClose,
            TransferClient::AwaitingChecksum => ClientAction::ReadChecksum,
            TransferClient::Done(checksum) => ClientAction::Finish(*checksum),
            TransferClient::ClosedEarly => ClientAction::Abort,
            TransferClient::Failed(_) => ClientAction::Abort,
        }
    }

    /// Takes one completion.
    pub fn on_event(self, event: ClientEvent) -> (next: TransferClient)
        ensures
            next == self.after(event),
    {
        match self {
            TransferClient::Done(checksum) => TransferClient::Done(checksum),
            TransferClient::ClosedEarly => TransferClient::ClosedEarly,
            TransferClient::Failed(error) => TransferClient::Failed(error),
            TransferClient::Connecting => match event {
                ClientEvent::Failed(detail) => TransferClient::Failed(
                    BenchError::new(ErrorKind::Connect, detail),
                ),
                ClientEvent::Completed => TransferClient::Opening,
                _ => TransferClient::Connecting,
            },
            TransferClient::Opening => match event {
                ClientEvent::Failed(detail) => TransferClient::Failed(
                    BenchError::new(ErrorKind::Io, detail),
                ),
                ClientEvent::Completed => TransferClient::Sending,
                _ => TransferClient::Opening,
            },
            TransferClient::Sending => match event {
                ClientEvent::Failed(detail) => TransferClient::Failed(
                    BenchError::new(ErrorKind::Io, detail),
                ),
                ClientEvent::Completed => TransferClient::HalfClosing,
                _ => TransferClient::Sending,
            },
            TransferClient::HalfClosing => match event {
                ClientEvent::Failed(detail) => TransferClient::Failed(
                    BenchError::new(ErrorKind::Protocol, detail),
                ),
                ClientEvent::Completed => TransferClient::AwaitingChecksum,
                _ => TransferClient::HalfClosing,
            },
            TransferClient::AwaitingChecksum => match event {
                ClientEvent::Failed(detail) => TransferClient::Failed(
                    BenchError::new(ErrorKind::Io, detail),
                ),
                ClientEvent::Checksum(checksum) => TransferClient::Done(checksum),
                ClientEvent::EndOfStream => TransferClient::ClosedEarly,
                ClientEvent::Completed => TransferClient::AwaitingChecksum,
            },
        }
    }

    /// How the transfer ended, once it has.
    pub fn outcome(self) -> (ending: Option<Result<u8, BenchError>>)
        ensures
            match ending {
                None => self.ending() is None,
                Some(Ok(checksum)) => self.ending() == Some(Ok::<u8, Failure>(checksum)),
                Some(Err(error)) => self.ending() == Some(Err::<u8, Failure>(error@)),
            },
    {
        match self {
            TransferClient::Done(checksum) => Some(Ok(checksum)),
            TransferClient::ClosedEarly => Some(
                Err(
                    BenchError::new(
                        ErrorKind::Protocol,
                        String::from_str("connection closed before the checksum byte"),
                    ),
                ),
            ),
            TransferClient::Failed(error) => Some(Err(error)),
            _ => None,
        }
    }
}

/// A transfer on which nothing fails runs through its actions in order:
/// connect, open the file, send it, close the sending direction, read; and
/// it ends with the byte that the read delivered.
pub proof fn lemma_transfer_runs_in_order(checksum: u8)
    ensures
        ({
            let connecting = TransferClient::Connecting;
            let opening = connecting.after(ClientEvent::Completed);
            let sending = opening.after(ClientEvent::Completed);
            let closing = sending.after(ClientEvent::Completed);
            let awaiting = closing.after(ClientEvent::Completed);
            let done = awaiting.after(ClientEvent::Checksum(checksum));
            &&& connecting.action() == ClientAction::Connect
            &&& opening.action() == ClientAction::OpenFile
            &&& sending.action() == ClientAction::SendFile
            &&& closing.action() == ClientAction::HalfClose
            &&& awaiting.action() == ClientAction::ReadChecksum
            &&& done.action() == ClientAction::Finish(checksum)
            &&& done.ending() == Some(Ok::<u8, Failure>(checksum))
        }),
{
}

/// The client asks for the read only once the sending direction is closed:
/// the only way into the state that reads leads through the completed
/// half-close, and the only way to a checksum leads through that state.
pub proof fn lemma_read_follows_half_close(client: TransferClient, event: ClientEvent)
    ensures
        client.after(event) is AwaitingChecksum ==> client is AwaitingChecksum || (client
            is HalfClosing && event is Completed),
        client.after(event) is Done ==> client is Done || (client is AwaitingChecksum && event
            is Checksum),
        client.after(event).action() == ClientAction::ReadChecksum ==> client is AwaitingChecksum
            || client is HalfClosing,
{
}

/// A connection that the peer closes before it answers ends the transfer
/// with a protocol failure, never with a checksum.
pub proof fn lemma_closed_early_is_protocol_failure(later: Seq<ClientEvent>)
    ensures
        ({
            let ended = TransferClient::AwaitingChecksum.after(ClientEvent::EndOfStream);
            &&& ended.action() == ClientAction::Abort
            &&& ended.ending() == Some(
                Err::<u8, Failure>(Failure { kind: ErrorKind::Protocol, detail: closed_early() }),
            )
            &&& ended.after_all(later) == ended
        }),
    decreases later.len(),
{
    if later.len() > 0 {
        lemma_closed_early_is_protocol_failure(later.drop_last());
    }
}

/// A failed action ends the transfer at once with a failure that carries the
/// detail: a connect failure while connecting, a protocol failure while
/// closing the sending direction, an I/O failure otherwise.
pub proof fn lemma_failed_action_ends_transfer(client: TransferClient, detail: String)
    requires
        !client.ended(),
    ensures
        client.after(ClientEvent::Failed(detail)).ending() == Some(
            Err::<u8, Failure>(Failure { kind: client.failure_kind(), detail: detail@ }),
        ),
        client.after(ClientEvent::Failed(detail)).action() == ClientAction::Abort,
{
}

/// The round trip. The client sends a payload and closes its sending
/// direction; the bytes reach the handler in whatever chunks, none of them
/// empty, followed by the end of the stream; the handler answers with one
/// byte; the client reads it. The transfer then ends with the checksum of
/// exactly the bytes that were sent.
pub proof fn lemma_round_trip(chunks: Seq<Seq<u8>>)
    requires
        forall|i: int| 0 <= i < chunks.len() ==> (#[trigger] chunks[i]).len() > 0,
    ensures
        ({
            let payload = chunks.flatten();
            let served = ChecksumHandler::Reading(0).run(reading_steps(chunks)).advance(
                HandlerStep::Poll,
            ).advance(HandlerStep::Completion(ConnectionEvent::Received(Seq::empty())));
            let awaiting = TransferClient::Connecting.after_all(
                seq![
                    ClientEvent::Completed,
                    ClientEvent::Completed,
                    ClientEvent::Completed,
                    ClientEvent::Completed,
                ],
            );
            &&& awaiting == TransferClient::AwaitingChecksum
            &&& served.action() == HandlerAction::Write(xor_fold(payload))
            &&& awaiting.after(ClientEvent::Checksum(xor_fold(payload))).ending() == Some(
                Ok::<u8, Failure>(xor_fold(payload)),
            )
        }),
{
    lemma_handler_answers_with_checksum(chunks);
    let c = ClientEvent::Completed;
    let four = seq![c, c, c, c];
    let three = seq![c, c, c];
    let two = seq![c, c];
    let one = seq![c];
    assert(four.drop_last() =~= three);
    assert(three.drop_last() =~= two);
    assert(two.drop_last() =~= one);
    assert(one.drop_last() =~= Seq::<ClientEvent>::empty());
    let start = TransferClient::Connecting;
    assert(start.after_all(Seq::<ClientEvent>::empty()) == start);
    assert(start.after_all(one) == TransferClient::Opening);
    assert(start.after_all(two) == TransferClient::Sending);
    assert(start.after_all(three) == TransferClient::HalfClosing);
}

} // verus!
