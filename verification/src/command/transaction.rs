//! One command and its answer.
//!
//! A transaction writes the command to the control-out endpoint, reads the
//! response from the control-in endpoint where the command has one, and then
//! reads the 16-byte completion, which echoes the sequence number. The
//! transfers themselves are the caller's: an [`Exchange`] says which
//! transfer comes next and takes in how it went.
use vstd::prelude::*;

use crate::command::{Command, HEADER_SIZE, command_bytes};
use crate::error::{Error, TransportFailure};
use crate::wire::{be_u32, le_u32, read_u32, read_u32_be};

verus! {

/// Bytes of a completion.
pub const COMPLETE_RESPONSE_LENGTH: usize = 16;

/// The magic of a completion. Its four bytes stand at the head of the
/// completion in the order in which the number is written: `0a 6f e0 00`.
pub const COMPLETE_RESPONSE_MAGIC: u32 = 0x0a6fe000;

/// `result` has the shape of a completion: 16 bytes that begin with the
/// bytes `0a 6f e0 00`.
pub open spec fn is_complete_response(result: Seq<u8>) -> bool {
    result.len() == COMPLETE_RESPONSE_LENGTH && be_u32(result, 0) == COMPLETE_RESPONSE_MAGIC
}

/// What is wrong with `result` as the completion of command `sequence`.
/// Bytes without the shape of a completion are refused. A completion that
/// echoes another sequence number, the little-endian word behind the magic,
/// is refused with the number it echoes and the number it should echo.
pub open spec fn completion_verdict(result: Seq<u8>, sequence: u32) -> Result<(), Error> {
    if !is_complete_response(result) {
        Err(Error::MissingComplete)
    } else if le_u32(result, 4) != sequence {
        Err(Error::InvalidSequence(le_u32(result, 4), sequence))
    } else {
        Ok(())
    }
}

/// Tells whether `result` has the shape of a completion.
pub fn has_complete_shape(result: &[u8]) -> (complete: bool)
    ensures
        complete == is_complete_response(result@),
{
    result.len() == COMPLETE_RESPONSE_LENGTH && read_u32_be(result, 0) == COMPLETE_RESPONSE_MAGIC
}

/// Holds a completion against the sequence number of the command.
pub fn check_complete_response(result: &[u8], sequence: u32) -> (verdict: Result<(), Error>)
    ensures
        verdict == completion_verdict(result@, sequence),
{
    if !has_complete_shape(result) {
        return Err(Error::MissingComplete);
    }
    let result_sequence = read_u32(result, 4);
    if result_sequence != sequence {
        return Err(Error::InvalidSequence(result_sequence, sequence));
    }
    Ok(())
}

/// The transfer that a transaction needs next, or its outcome.
#[derive(Debug, PartialEq, Eq)]
pub enum Action {
    /// Write `bytes` to `endpoint`.
    Write { endpoint: u8, bytes: Vec<u8> },
    /// Read up to `length` bytes from `endpoint`.
    Read { endpoint: u8, length: u32 },
    /// Clear the halt of `endpoint`.
    ClearHalt { endpoint: u8 },
    /// The transaction is over: the response, or why there is none.
    Finish(Result<Vec<u8>, Error>),
}

/// An [`Action`] as plain values.
pub enum ActionView {
    Write { endpoint: u8, bytes: Seq<u8> },
    Read { endpoint: u8, length: u32 },
    ClearHalt { endpoint: u8 },
    Finish(Result<Seq<u8>, Error>),
}

impl View for Action {
    type V = ActionView;

    open spec fn view(&self) -> ActionView {
        match *self {
            Action::Write { endpoint, bytes } => ActionView::Write { endpoint, bytes: bytes@ },
            Action::Read { endpoint, length } => ActionView::Read { endpoint, length },
            Action::ClearHalt { endpoint } => ActionView::ClearHalt { endpoint },
            Action::Finish(Ok(body)) => ActionView::Finish(Ok(body@)),
            Action::Finish(Err(error)) => ActionView::Finish(Err(error)),
        }
    }
}

/// How the transfer that was asked for went.
#[derive(Debug, Clone, PartialEq, Eq)]
pub enum Event {
    /// The write took this many bytes.
    Written(usize),
    /// The read brought these bytes.
    Received(Vec<u8>),
    /// The halt is cleared.
    HaltCleared,
    /// The transfer failed.
    Failed(TransportFailure),
}

/// An [`Event`] as plain values.
pub enum EventView {
    Written(usize),
    Received(Seq<u8>),
    HaltCleared,
    Failed(TransportFailure),
}

impl View for Event {
    type V = EventView;

    open spec fn view(&self) -> EventView {
        match *self {
            Event::Written(length) => EventView::Written(length),
            Event::Received(bytes) => EventView::Received(bytes@),
            Event::HaltCleared => EventView::HaltCleared,
            Event::Failed(failure) => EventView::Failed(failure),
        }
    }
}

/// Where a transaction stands.
#[derive(Debug, Clone, Copy, PartialEq, Eq)]
pub enum Phase {
    /// The command is being written.
    Sending,
    /// The response is being read.
    Receiving,
    /// The completion is being read.
    Completing,
    /// The halt of a stalled endpoint is being cleared.
    Clearing,
    /// The transaction is over.
    Finished,
}

/// An [`Exchange`] as plain values.
pub struct ExchangeView {
    pub phase: Phase,
    pub in_endpoint: u8,
    pub out_endpoint: u8,
    /// The sequence number that the command went out with.
    pub sequence: u32,
    /// Bytes of the command.
    pub size: usize,
    pub max_response_length: u32,
    pub min_response_length: u32,
    /// The response, once it is in.
    pub response: Seq<u8>,
}

/// One transaction under way.
#[derive(Debug)]
pub struct Exchange {
    phase: Phase,
    in_endpoint: u8,
    out_endpoint: u8,
    sequence: u32,
    size: usize,
    max_response_length: u32,
    min_response_length: u32,
    response: Vec<u8>,
}

impl View for Exchange {
    type V = ExchangeView;

    closed spec fn view(&self) -> ExchangeView {
        ExchangeView {
            phase: self.phase,
            in_endpoint: self.in_endpoint,
            out_endpoint: self.out_endpoint,
            sequence: self.sequence,
            size: self.size,
            max_response_length: self.max_response_length,
            min_response_length: self.min_response_length,
            response: self.response@,
        }
    }
}

/// `state` in another phase.
pub open spec fn in_phase(state: ExchangeView, phase: Phase) -> ExchangeView {
    ExchangeView { phase, ..state }
}

/// `state` once the transaction is over: it holds no response any more.
pub open spec fn finished(state: ExchangeView) -> ExchangeView {
    ExchangeView { phase: Phase::Finished, response: Seq::empty(), ..state }
}

/// The end of a transaction, with its outcome.
pub open spec fn finish(state: ExchangeView, outcome: Result<Seq<u8>, Error>) -> (
    ExchangeView,
    ActionView,
) {
    (finished(state), ActionView::Finish(outcome))
}

/// What follows a transfer that failed: a stalled endpoint has its halt
/// cleared, and the transaction fails either way.
pub open spec fn after_failure(state: ExchangeView, failure: TransportFailure, endpoint: u8) -> (
    ExchangeView,
    ActionView,
) {
    if failure == TransportFailure::Stall {
        (in_phase(state, Phase::Clearing), ActionView::ClearHalt { endpoint })
    } else {
        finish(state, Err(Error::Transport(failure)))
    }
}

/// The step of a transaction: the state and the action that follow `event`
/// in `state`.
///
/// - After the write: a short write fails; else the response is read where
///   the command has one, and the completion where it has none.
/// - After the read of the response: too few bytes fail; so does a
///   completion in its place; else the completion is read.
/// - After the read of the completion: too few bytes fail; so do bytes
///   without the magic of a completion, and a completion that echoes
///   another sequence number; else the response is handed out.
/// - An event that does not answer the action asked for fails the
///   transaction.
pub open spec fn next(state: ExchangeView, event: EventView) -> (ExchangeView, ActionView) {
    match (state.phase, event) {
        (Phase::Sending, EventView::Written(length)) => {
            if length != state.size {
                finish(state, Err(Error::Send(length, state.size)))
            } else if state.max_response_length > 0 {
                (
                    in_phase(state, Phase::Receiving),
                    ActionView::Read {
                        endpoint: state.in_endpoint,
                        length: state.max_response_length,
                    },
                )
            } else {
                (
                    in_phase(state, Phase::Completing),
                    ActionView::Read {
                        endpoint: state.in_endpoint,
                        length: COMPLETE_RESPONSE_LENGTH as u32,
                    },
                )
            }
        },
        (Phase::Sending, EventView::Failed(failure)) => after_failure(
            state,
            failure,
            state.out_endpoint,
        ),
        (Phase::Receiving, EventView::Received(bytes)) => {
            if bytes.len() < state.min_response_length {
                finish(state, Err(Error::Receive(bytes.len() as usize, state.min_response_length)))
            } else if is_complete_response(bytes) {
                finish(state, Err(Error::PrematureComplete))
            } else {
                (
                    ExchangeView { phase: Phase::Completing, response: bytes, ..state },
                    ActionView::Read {
                        endpoint: state.in_endpoint,
                        length: COMPLETE_RESPONSE_LENGTH as u32,
                    },
                )
            }
        },
        (Phase::Completing, EventView::Received(bytes)) => {
            if bytes.len() < COMPLETE_RESPONSE_LENGTH {
                finish(
                    state,
                    Err(Error::Receive(bytes.len() as usize, COMPLETE_RESPONSE_LENGTH as u32)),
                )
            } else {
                match completion_verdict(bytes, state.sequence) {
                    Err(error) => finish(state, Err(error)),
                    Ok(_) => finish(state, Ok(state.response)),
                }
            }
        },
        (Phase::Receiving, EventView::Failed(failure)) => after_failure(
            state,
            failure,
            state.in_endpoint,
        ),
        (Phase::Completing, EventView::Failed(failure)) => after_failure(
            state,
            failure,
            state.in_endpoint,
        ),
        (Phase::Clearing, EventView::HaltCleared) => finish(
            state,
            Err(Error::Transport(TransportFailure::Stall)),
        ),
        (Phase::Clearing, EventView::Failed(failure)) => finish(
            state,
            Err(Error::Transport(failure)),
        ),
        _ => finish(state, Err(Error::Transport(TransportFailure::Other))),
    }
}

impl Exchange {
    /// Where the transaction stands.
    pub fn phase(&self) -> (phase: Phase)
        ensures
            phase == self@.phase,
    {
        self.phase
    }

    /// The sequence number that the command went out with.
    pub fn sequence(&self) -> (sequence: u32)
        ensures
            sequence == self@.sequence,
    {
        self.sequence
    }

    fn end(&mut self, outcome: Result<Vec<u8>, Error>) -> (action: Action)
        ensures
            final(self)@ == finished(old(self)@),
            action == Action::Finish(outcome),
    {
        self.phase = Phase::Finished;
        self.response = Vec::new();
        Action::Finish(outcome)
    }

    fn fail(&mut self, failure: TransportFailure, endpoint: u8) -> (action: Action)
        ensures
            (final(self)@, action@) == after_failure(old(self)@, failure, endpoint),
    {
        match failure {
            TransportFailure::Stall => {
                self.phase = Phase::Clearing;
                Action::ClearHalt { endpoint }
            },
            _ => self.end(Err(Error::Transport(failure))),
        }
    }

    fn read_completion(&mut self) -> (action: Action)
        ensures
            final(self)@ == in_phase(old(self)@, Phase::Completing),
            action@ == (ActionView::Read {
                endpoint: old(self)@.in_endpoint,
                length: COMPLETE_RESPONSE_LENGTH as u32,
            }),
    {
        self.phase = Phase::Completing;
        Action::Read { endpoint: self.in_endpoint, length: COMPLETE_RESPONSE_LENGTH as u32 }
    }

    /// Takes in how the last transfer went and says what comes next.
    pub fn handle(&mut self, event: Event) -> (action: Action)
        ensures
            (final(self)@, action@) == next(old(self)@, event@),
    {
        match (self.phase, event) {
            (Phase::Sending, Event::Written(length)) => {
                if length != self.size {
                    let size = self.size;
                    self.end(Err(Error::Send(length, size)))
                } else if self.max_response_length > 0 {
                    self.phase = Phase::Receiving;
                    Action::Read { endpoint: self.in_endpoint, length: self.max_response_length }
                } else {
                    self.read_completion()
                }
            },
            (Phase::Sending, Event::Failed(failure)) => {
                let endpoint = self.out_endpoint;
                self.fail(failure, endpoint)
            },
            (Phase::Receiving, Event::Received(bytes)) => {
                if bytes.len() < self.min_response_length as usize {
                    let expected = self.min_response_length;
                    self.end(Err(Error::Receive(bytes.len(), expected)))
                } else if has_complete_shape(bytes.as_slice()) {
                    self.end(Err(Error::PrematureComplete))
                } else {
                    self.response = bytes;
                    self.read_completion()
                }
            },
            (Phase::Completing, Event::Received(bytes)) => {
                if bytes.len() < COMPLETE_RESPONSE_LENGTH {
                    self.end(Err(Error::Receive(bytes.len(), COMPLETE_RESPONSE_LENGTH as u32)))
                } else {
                    match check_complete_response(bytes.as_slice(), self.sequence) {
                        Err(error) => self.end(Err(error)),
                        Ok(_) => {
                            let mut response: Vec<u8> = Vec::new();
                            core::mem::swap(&mut self.response, &mut response);
                            self.end(Ok(response))
                        },
                    }
                }
            },
            (Phase::Receiving, Event::Failed(failure)) => {
                let endpoint = self.in_endpoint;
                self.fail(failure, endpoint)
            },
            (Phase::Completing, Event::Failed(failure)) => {
                let endpoint = self.in_endpoint;
                self.fail(failure, endpoint)
            },
            (Phase::Clearing, Event::HaltCleared) => self.end(
                Err(Error::Transport(TransportFailure::Stall)),
            ),
            (Phase::Clearing, Event::Failed(failure)) => self.end(Err(Error::Transport(failure))),
            _ => self.end(Err(Error::Transport(TransportFailure::Other))),
        }
    }
}

/// A [`CommandTransaction`] as plain values.
pub struct CommandTransactionView {
    pub in_endpoint: u8,
    pub out_endpoint: u8,
    /// The sequence number that the last sequenced command went out with.
    pub sequence: u32,
}

/// The command side of a session: the two control endpoints and the
/// counter of sequence numbers.
#[derive(Debug, Clone)]
pub struct CommandTransaction {
    in_endpoint: u8,
    out_endpoint: u8,
    sequence: u32,
}

impl View for CommandTransaction {
    type V = CommandTransactionView;

    closed spec fn view(&self) -> CommandTransactionView {
        CommandTransactionView {
            in_endpoint: self.in_endpoint,
            out_endpoint: self.out_endpoint,
            sequence: self.sequence,
        }
    }
}

/// The counter after one more sequenced command: one more, and 0 after the
/// last number that 32 bits hold.
pub open spec fn following(sequence: u32) -> u32 {
    if sequence == u32::MAX {
        0
    } else {
        (sequence + 1) as u32
    }
}

/// The sequence number that a command goes out with when the counter stands
/// at `sequence`: the following number, or 0 for a command that takes none.
pub open spec fn assigned(sequence: u32, has_sequence: bool) -> u32 {
    if has_sequence {
        following(sequence)
    } else {
        0
    }
}

impl CommandTransaction {
    /// The command side of a new session. The first sequenced command goes
    /// out as number 1.
    pub fn new(in_endpoint: u8, out_endpoint: u8) -> (transaction: Self)
        ensures
            transaction@ == (CommandTransactionView { in_endpoint, out_endpoint, sequence: 0 }),
    {
        Self { in_endpoint, out_endpoint, sequence: 0 }
    }

    /// The sequence number that the last sequenced command went out with.
    pub fn sequence(&self) -> (sequence: u32)
        ensures
            sequence == self@.sequence,
    {
        self.sequence
    }

    /// Starts the transaction of `command`: gives the command its sequence
    /// number and asks for its bytes to be written.
    pub fn begin(&mut self, command: &Command) -> (started: (Exchange, Action))
        ensures
            final(self)@ == (CommandTransactionView {
                sequence: if command@.has_sequence {
                    following(old(self)@.sequence)
                } else {
                    old(self)@.sequence
                },
                ..old(self)@
            }),
            started.0@ == (ExchangeView {
                phase: Phase::Sending,
                in_endpoint: old(self)@.in_endpoint,
                out_endpoint: old(self)@.out_endpoint,
                sequence: assigned(old(self)@.sequence, command@.has_sequence),
                size: (HEADER_SIZE + 4 * command@.parameters.len()) as usize,
                max_response_length: command@.max_response_length,
                min_response_length: command@.min_response_length,
                response: Seq::empty(),
            }),
            started.1@ == (ActionView::Write {
                endpoint: old(self)@.out_endpoint,
                bytes: command_bytes(
                    assigned(old(self)@.sequence, command@.has_sequence),
                    command@.max_response_length,
                    command@.command_id,
                    command@.parameters,
                ),
            }),
    {
        let sequence = if command.has_sequence() {
            self.sequence = if self.sequence == u32::MAX {
                0
            } else {
                self.sequence + 1
            };
            self.sequence
        } else {
            0
        };
        let exchange = Exchange {
            phase: Phase::Sending,
            in_endpoint: self.in_endpoint,
            out_endpoint: self.out_endpoint,
            sequence,
            size: command.size(),
            max_response_length: command.max_response_length(),
            min_response_length: command.min_response_length(),
            response: Vec::new(),
        };
        (exchange, Action::Write { endpoint: self.out_endpoint, bytes: command.as_bytes(sequence) })
    }
}

/// A transaction hands out a response only after a completion came in that
/// begins with the magic and echoes the sequence number of the command, and
/// the response is the one that was read before it. Without a response to
/// read, what it hands out is empty.
pub proof fn lemma_success_follows_completion(state: ExchangeView, event: EventView)
    requires
        next(state, event).1 matches ActionView::Finish(Ok(_)),
    ensures
        state.phase == Phase::Completing,
        event matches EventView::Received(bytes) && is_complete_response(bytes) && le_u32(
            bytes,
            4,
        ) == state.sequence,
        next(state, event).1 == ActionView::Finish(Ok(state.response)),
{
}

/// While the counter has not reached the last number that 32 bits hold,
/// each sequenced command goes out with a greater number than the one
/// before it.
pub proof fn lemma_sequence_increases(sequence: u32)
    requires
        sequence < u32::MAX,
    ensures
        assigned(sequence, true) == sequence + 1,
        following(sequence) > sequence,
{
}

/// A completion that came in place of the response fails the transaction
/// as a premature completion, whatever sequence number it echoes.
pub proof fn lemma_premature_completion(state: ExchangeView, bytes: Seq<u8>)
    requires
        state.phase == Phase::Receiving,
        is_complete_response(bytes),
        state.min_response_length <= COMPLETE_RESPONSE_LENGTH,
    ensures
        next(state, EventView::Received(bytes)).1 == ActionView::Finish(
            Err(Error::PrematureComplete),
        ),
{
}

/// Most events that a transaction in `phase` still takes in.
pub open spec fn events_left(phase: Phase) -> nat {
    match phase {
        Phase::Sending => 4,
        Phase::Receiving => 3,
        Phase::Completing => 2,
        Phase::Clearing => 1,
        Phase::Finished => 0,
    }
}

/// Every event brings a transaction nearer to its end, and the transaction
/// says that it is over exactly when it is. So a transaction is over after
/// four events at most: no answer of the device keeps it going.
pub proof fn lemma_transaction_ends(state: ExchangeView, event: EventView)
    requires
        state.phase != Phase::Finished,
    ensures
        events_left(next(state, event).0.phase) < events_left(state.phase),
        next(state, event).1 is Finish <==> next(state, event).0.phase == Phase::Finished,
{
}

} // verus!
