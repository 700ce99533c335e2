//! The serving side of the checksum protocol, one handler per connection.
//!
//! The peer sends bytes and then closes its sending direction. The handler
//! reads until it sees that end, answers with one byte, the checksum of all
//! it received, and closes. A failure on the connection ends that handler and
//! nothing else: a handler is a value of its own and holds no state but what
//! its own connection delivered.

use vstd::prelude::*;
use crate::checksum::{hash, xor_fold, fold_chunks, lemma_fold_chunks_is_xor_fold};
use crate::error::{BenchError, ErrorKind};

verus! {

/// A completion on the connection, as the driver reports it.
pub enum HandlerEvent<'a> {
    /// A read delivered these bytes. None at all means that the peer has
    /// closed its sending direction.
    Received(&'a [u8]),
    /// The response byte was written.
    Written,
    /// The read or the write that was under way failed; carries the detail.
    Failed(String),
}

/// What a completion on the connection amounts to.
pub enum ConnectionEvent {
    Received(Seq<u8>),
    Written,
    Failed(String),
}

impl<'a> View for HandlerEvent<'a> {
    type V = ConnectionEvent;

    open spec fn view(&self) -> ConnectionEvent {
        match *self {
            HandlerEvent::Received(bytes) => ConnectionEvent::Received(bytes@),
            HandlerEvent::Written => ConnectionEvent::Written,
            HandlerEvent::Failed(detail) => ConnectionEvent::Failed(detail),
        }
    }
}

/// What the driver of a connection does next.
#[derive(Clone, Copy, Debug, PartialEq, Eq, Structural)]
pub enum HandlerAction {
    /// Read from the peer and report what came.
    Read,
    /// Write this one byte to the peer and report when it is written.
    Write(u8),
    /// Nothing new: the write that was asked for is still under way.
    Wait,
    /// The exchange is complete: close the connection.
    Close,
    /// The connection failed: drop it and report the failure.
    Abort,
}

/// The handler of one connection.
#[derive(Clone, Debug, PartialEq, Eq)]
pub enum ChecksumHandler {
    /// Receiving; holds the checksum of what was received so far.
    Reading(u8),
    /// The peer has finished sending; holds the checksum of all it sent.
    Computed(u8),
    /// The checksum is being written back.
    Responding(u8),
    /// The checksum was written; the exchange is complete.
    Closed,
    /// The connection failed while receiving or while responding.
    Failed(BenchError),
}

impl ChecksumHandler {
    /// The state after a completion.
    ///
    /// While receiving, bytes are folded into the checksum and the end of the
    /// peer's stream fixes it. While responding, the completed write closes
    /// the exchange. A failure in either of the two ends the handler as
    /// failed. A completion that the state does not wait for changes nothing.
    pub open spec fn after(self, event: ConnectionEvent) -> ChecksumHandler {
        match (self, event) {
            (ChecksumHandler::Reading(so_far), ConnectionEvent::Received(bytes)) => if bytes.len()
                == 0 {
                ChecksumHandler::Computed(so_far)
            } else {
                ChecksumHandler::Reading(so_far ^ xor_fold(bytes))
            },
            (ChecksumHandler::Reading(_), ConnectionEvent::Failed(detail)) => ChecksumHandler::Failed(
                BenchError { kind: ErrorKind::Io, detail },
            ),
            (ChecksumHandler::Responding(_), ConnectionEvent::Written) => ChecksumHandler::Closed,
            (
                ChecksumHandler::Responding(_),
                ConnectionEvent::Failed(detail),
            ) => ChecksumHandler::Failed(BenchError { kind: ErrorKind::Io, detail }),
            _ => self,
        }
    }

    /// The state in which the driver carries out what [`Self::action`] asks
    /// for: taking up the response moves the handler from computed to
    /// responding; every other state stays.
    pub open spec fn taken_up(self) -> ChecksumHandler {
        match self {
            ChecksumHandler::Computed(checksum) => ChecksumHandler::Responding(checksum),
            _ => self,
        }
    }

    /// What the driver does next in this state.
    pub open spec fn action(self) -> HandlerAction {
        match self {
            ChecksumHandler::Reading(_) => HandlerAction::Read,
            ChecksumHandler::Computed(checksum) => HandlerAction::Write(checksum),
            ChecksumHandler::Responding(_) => HandlerAction::Wait,
            ChecksumHandler::Closed => HandlerAction::Close,
            ChecksumHandler::Failed(_) => HandlerAction::Abort,
        }
    }

    /// How the connection ended, once it has: well, or with its failure.
    pub open spec fn ending(self) -> Option<Result<(), BenchError>> {
        match self {
            ChecksumHandler::Closed => Some(Ok(())),
            ChecksumHandler::Failed(error) => Some(Err(error)),
            _ => None,
        }
    }

    /// The handler of a connection that was just accepted.
    pub fn new() -> (handler: ChecksumHandler)
        ensures
            handler == ChecksumHandler::Reading(0),
    {
        ChecksumHandler::Reading(0)
    }

    /// Says what to do next, and moves on to the state in which it is done.
    pub fn poll(self) -> (next: (ChecksumHandler, HandlerAction))
        ensures
            next.0 == self.taken_up(),
            next.1 == self.action(),
    {
        match self {
            ChecksumHandler::Reading(so_far) => (ChecksumHandler::Reading(so_far), HandlerAction::Read),
            ChecksumHandler::Computed(checksum) => (
                ChecksumHandler::Responding(checksum),
                HandlerAction::Write(checksum),
            ),
            ChecksumHandler::Responding(checksum) => (
                ChecksumHandler::Responding(checksum),
                HandlerAction::Wait,
            ),
            ChecksumHandler::Closed => (ChecksumHandler::Closed, HandlerAction::Close),
            ChecksumHandler::Failed(error) => (ChecksumHandler::Failed(error), HandlerAction::Abort),
        }
    }

    /// Takes one completion.
    pub fn on_event(self, event: HandlerEvent<'_>) -> (next: ChecksumHandler)
        ensures
            next == self.after(event@),
    {
        match self {
            ChecksumHandler::Reading(so_far) => match event {
                HandlerEvent::Received(bytes) => {
                    if bytes.len() == 0 {
                        ChecksumHandler::Computed(so_far)
                    } else {
                        ChecksumHandler::Reading(so_far ^ hash(bytes))
                    }
                },
                HandlerEvent::Failed(detail) => ChecksumHandler::Failed(
                    BenchError::new(ErrorKind::Io, detail),
                ),
                HandlerEvent::Written => ChecksumHandler::Reading(so_far),
            },
            ChecksumHandler::Responding(checksum) => match event {
                HandlerEvent::Written => ChecksumHandler::Closed,
                HandlerEvent::Failed(detail) => ChecksumHandler::Failed(
                    BenchError::new(ErrorKind::Io, detail),
                ),
                HandlerEvent::Received(_) => ChecksumHandler::Responding(checksum),
            },
            other => other,
        }
    }

    /// How the connection ended, once it has.
    pub fn outcome(self) -> (ending: Option<Result<(), BenchError>>)
        ensures
            ending == self.ending(),
    {
        match self {
            ChecksumHandler::Closed => Some(Ok(())),
            ChecksumHandler::Failed(error) => Some(Err(error)),
            _ => None,
        }
    }
}

/// One step of a handler: the driver takes up what the handler asks for, or
/// reports a completion.
pub enum HandlerStep {
    Poll,
    Completion(ConnectionEvent),
}

impl ChecksumHandler {
    /// The state after one step.
    pub open spec fn advance(self, step: HandlerStep) -> ChecksumHandler {
        match step {
            HandlerStep::Poll => self.taken_up(),
            HandlerStep::Completion(event) => self.after(event),
        }
    }

    /// The state after a sequence of steps, taken in order.
    pub open spec fn run(self, steps: Seq<HandlerStep>) -> ChecksumHandler
        decreases steps.len(),
    {
        if steps.len() == 0 {
            self
        } else {
            self.run(steps.drop_last()).advance(steps.last())
        }
    }
}

/// The steps in which a driver receives `chunks`: for each chunk it takes up
/// the read that the handler asks for and reports the bytes that came.
pub open spec fn reading_steps(chunks: Seq<Seq<u8>>) -> Seq<HandlerStep>
    decreases chunks.len(),
{
    if chunks.len() == 0 {
        Seq::empty()
    } else {
        reading_steps(chunks.drop_last()).push(HandlerStep::Poll).push(
            HandlerStep::Completion(ConnectionEvent::Received(chunks.last())),
        )
    }
}

/// The whole exchange on a connection that does not fail. Whatever the
/// chunks in which the peer's bytes arrive, none of them empty: while they
/// arrive the handler keeps reading; the end of the peer's stream fixes the
/// checksum of all the bytes; the handler then asks for that one byte to be
/// written, and the completed write closes the exchange well.
pub proof fn lemma_handler_answers_with_checksum(chunks: Seq<Seq<u8>>)
    requires
        forall|i: int| 0 <= i < chunks.len() ==> (#[trigger] chunks[i]).len() > 0,
    ensures
        ({
            let checksum = xor_fold(chunks.flatten());
            let end = HandlerStep::Completion(ConnectionEvent::Received(Seq::empty()));
            let written = HandlerStep::Completion(ConnectionEvent::Written);
            let reading = ChecksumHandler::Reading(0).run(reading_steps(chunks));
            let computed = reading.advance(HandlerStep::Poll).advance(end);
            let responding = computed.advance(HandlerStep::Poll);
            let closed = responding.advance(written);
            &&& reading == ChecksumHandler::Reading(checksum)
            &&& reading.action() == HandlerAction::Read
            &&& computed == ChecksumHandler::Computed(checksum)
            &&& computed.action() == HandlerAction::Write(checksum)
            &&& responding == ChecksumHandler::Responding(checksum)
            &&& responding.action() == HandlerAction::Wait
            &&& closed == ChecksumHandler::Closed
            &&& closed.action() == HandlerAction::Close
            &&& closed.ending() == Some(Ok::<(), BenchError>(()))
        }),
{
    lemma_reading_folds(0, chunks);
    lemma_fold_chunks_is_xor_fold(0, chunks);
}

/// While bytes arrive, the handler holds the checksum of all of them so far.
proof fn lemma_reading_folds(start: u8, chunks: Seq<Seq<u8>>)
    requires
        forall|i: int| 0 <= i < chunks.len() ==> (#[trigger] chunks[i]).len() > 0,
    ensures
        ChecksumHandler::Reading(start).run(reading_steps(chunks)) == ChecksumHandler::Reading(
            fold_chunks(start, chunks),
        ),
    decreases chunks.len(),
{
    if chunks.len() > 0 {
        let rest = chunks.drop_last();
        lemma_reading_folds(start, rest);
        let handler = ChecksumHandler::Reading(start);
        let steps = reading_steps(chunks);
        let polled = reading_steps(rest).push(HandlerStep::Poll);
        assert(polled.drop_last() =~= reading_steps(rest));
        assert(steps.drop_last() =~= polled);
        assert(handler.run(polled) == handler.run(reading_steps(rest)).advance(polled.last()));
        assert(handler.run(steps) == handler.run(polled).advance(steps.last()));
    }
}

/// A failure while receiving or while responding ends the handler as failed,
/// with an I/O failure that carries the detail. No response is asked for
/// after it, and no later step changes it.
pub proof fn lemma_handler_failure_is_final(
    handler: ChecksumHandler,
    detail: String,
    later: Seq<HandlerStep>,
)
    requires
        handler is Reading || handler is Responding,
    ensures
        ({
            let failed = handler.after(ConnectionEvent::Failed(detail));
            let error = BenchError { kind: ErrorKind::Io, detail };
            &&& failed == ChecksumHandler::Failed(error)
            &&& failed.action() == HandlerAction::Abort
            &&& failed.ending() == Some(Err::<(), BenchError>(error))
            &&& failed.run(later) == failed
        }),
    decreases later.len(),
{
    if later.len() > 0 {
        lemma_handler_failure_is_final(handler, detail, later.drop_last());
    }
}

/// The place of a state in the course of an exchange.
pub open spec fn rank(handler: ChecksumHandler) -> nat {
    match handler {
        ChecksumHandler::Reading(_) => 0,
        ChecksumHandler::Computed(_) => 1,
        ChecksumHandler::Responding(_) => 2,
        ChecksumHandler::Closed => 3,
        ChecksumHandler::Failed(_) => 3,
    }
}

/// No step leads back: from receiving to computed to responding to closed,
/// or from receiving or responding to failed.
pub proof fn lemma_handler_only_advances(handler: ChecksumHandler, event: ConnectionEvent)
    ensures
        rank(handler) <= rank(handler.after(event)),
        rank(handler) <= rank(handler.taken_up()),
        rank(handler.after(event)) <= rank(handler) + 1 || handler.after(event) is Failed,
        handler.after(event) is Responding ==> handler is Responding,
        handler.taken_up() is Responding ==> handler is Computed || handler is Responding,
        handler.after(event) is Closed ==> handler is Responding || handler is Closed,
{
}

/// A step of the handler of one connection among many, as a server sees it:
/// the steps of all its connections come interleaved in some order.
pub struct Arrival {
    pub connection: nat,
    pub step: HandlerStep,
}

/// The steps of one connection, picked out of an interleaving in their order.
pub open spec fn steps_of(interleaved: Seq<Arrival>, connection: nat) -> Seq<HandlerStep>
    decreases interleaved.len(),
{
    if interleaved.len() == 0 {
        Seq::empty()
    } else {
        let earlier = steps_of(interleaved.drop_last(), connection);
        if interleaved.last().connection == connection {
            earlier.push(interleaved.last().step)
        } else {
            earlier
        }
    }
}

/// The handlers of a server after an interleaving of steps. Each step goes
/// to the handler of its own connection; a connection that is seen for the
/// first time gets a new handler.
pub open spec fn serve(interleaved: Seq<Arrival>) -> Map<nat, ChecksumHandler>
    decreases interleaved.len(),
{
    if interleaved.len() == 0 {
        Map::empty()
    } else {
        let before = serve(interleaved.drop_last());
        let arrival = interleaved.last();
        let handler = if before.dom().contains(arrival.connection) {
            before[arrival.connection]
        } else {
            ChecksumHandler::Reading(0)
        };
        before.insert(arrival.connection, handler.advance(arrival.step))
    }
}

/// Connections do not talk across. However the steps of many connections are
/// interleaved, the handler of each connection is where its own steps alone
/// would have brought it: what it answers reflects the bytes of its own
/// connection and no others.
pub proof fn lemma_connections_are_isolated(interleaved: Seq<Arrival>, connection: nat)
    ensures
        serve(interleaved).dom().contains(connection) <==> steps_of(interleaved, connection).len()
            > 0,
        serve(interleaved).dom().contains(connection) ==> serve(interleaved)[connection]
            == ChecksumHandler::Reading(0).run(steps_of(interleaved, connection)),
    decreases interleaved.len(),
{
    if interleaved.len() > 0 {
        let earlier = interleaved.drop_last();
        let arrival = interleaved.last();
        lemma_connections_are_isolated(earlier, connection);
        if arrival.connection == connection {
            let steps = steps_of(earlier, connection);
            assert(steps.push(arrival.step).drop_last() =~= steps);
            assert(steps.push(arrival.step).last() == arrival.step);
        }
    }
}

} // verus!
