use vstd::prelude::*;

use crate::error::{fault_matches, LocoDriveSendingError, MessageParseError};
use crate::protocol::Message;

verus! {

/// One event handed to the sink for an inbound frame: the decoded message, a
/// correlated answer, or a decoding error. Delivery order matches arrival
/// order on the wire.
#[derive(Debug, Clone)]
pub enum SinkEvent {
    /// A successfully decoded message.
    Message(Message),
    /// An answer correlated with a prior request: the acknowledgment first,
    /// the request it answers second. The acknowledgment is also forwarded as
    /// a plain message afterwards.
    Answer(Message, Message),
    /// A frame that could not be decoded.
    Error(MessageParseError),
}

/// What the reader learnt from one inbound frame: whether it confirmed the
/// pending outbound frame, whether it is held back as the controller's own
/// traffic, and the events owed to the sink.
pub struct FrameReport {
    /// The frame equalled the pending outbound frame byte for byte: the
    /// waiting sender may complete.
    pub echo_confirmed: bool,
    /// The frame was this controller's own confirmed traffic and the session
    /// is configured to keep such frames from the sink.
    pub suppressed: bool,
    /// The events to hand to the sink, in order.
    pub events: Vec<SinkEvent>,
}

/// Whether an inbound frame is the echo of the pending outbound frame: there
/// must be one pending, and the bytes must match exactly.
pub open spec fn spec_echo_match(pending: Seq<u8>, buf: Seq<u8>) -> bool {
    pending.len() > 0 && pending == buf
}

/// The answer event owed for an inbound message: when an answer is awaited, a
/// long acknowledgment whose opcode copy matches the awaited request, or a
/// slot-data response while the awaited request expects one, is correlated
/// with that request.
pub open spec fn spec_answer(awaiting: bool, last: Message, msg: Message) -> Option<(
    Message,
    Message,
)> {
    if awaiting {
        match msg {
            Message::LongAck(lopc, _) => if last.spec_opc() & 0x7F == lopc.0 {
                Some((msg, last))
            } else {
                None
            },
            Message::SlRdData(..) => if last.spec_await_slot_data() {
                Some((msg, last))
            } else {
                None
            },
            _ => None,
        }
    } else {
        None
    }
}

/// Whether an inbound message starts a wait for a correlated answer: true
/// for the kinds whose acceptance is confirmed by a later long
/// acknowledgment, and for the kinds whose completion is signaled by a
/// slot-data response.
pub open spec fn spec_expects_answer(msg: Message) -> bool {
    msg.spec_answer_follows() || msg.spec_await_slot_data()
}

/// Whether an answer is awaited after an inbound message was handled: a
/// message that expects one starts a new wait, and any other message but the
/// busy code ends one (the master asking for time does not supersede a
/// request).
pub open spec fn spec_next_awaiting(awaiting: bool, msg: Message) -> bool {
    if spec_expects_answer(msg) {
        true
    } else if msg != Message::Busy {
        false
    } else {
        awaiting
    }
}

/// The request tracked as awaiting its answer after an inbound message was
/// handled.
pub open spec fn spec_next_last(last: Message, msg: Message) -> Message {
    if spec_expects_answer(msg) {
        msg
    } else {
        last
    }
}

/// Whether two byte sequences are equal.
fn bytes_equal(a: &[u8], b: &[u8]) -> (r: bool)
    ensures
        r == (a@ == b@),
{
    if a.len() != b.len() {
        return false;
    }
    let mut i: usize = 0;
    while i < a.len()
        invariant
            i <= a@.len(),
            a@.len() == b@.len(),
            forall|j: int| 0 <= j < i ==> a@[j] == b@[j],
        decreases a@.len() - i,
    {
        if a[i] != b[i] {
            return false;
        }
        i += 1;
    }
    proof {
        assert(a@ =~= b@);
    }
    true
}

/// The shared state of one duplex session: the single pending outbound frame
/// and the single request awaiting its correlated answer. The reader hands
/// every complete inbound frame to [`LocoDriveSession::handle_frame`]; a
/// sender opens its turn with [`LocoDriveSession::begin_send`] and, on a
/// timeout or a failed write, releases the slot with
/// [`LocoDriveSession::cancel_send`].
pub struct LocoDriveSession {
    /// The bytes of the last frame written but not yet seen back on the wire;
    /// empty when no send is in flight.
    pub pending_echo: Vec<u8>,
    /// Whether a request is awaiting its correlated answer.
    pub awaiting_answer: bool,
    /// The request awaiting its answer, meaningful while
    /// `awaiting_answer` holds.
    pub last_message: Message,
}

impl LocoDriveSession {
    /// Creates a fresh session: nothing pending, nothing awaited.
    pub fn new() -> (r: Self)
        ensures
            r.pending_echo@ == Seq::<u8>::empty(),
            r.awaiting_answer == false,
            r.last_message == Message::Busy,
    {
        LocoDriveSession { pending_echo: Vec::new(), awaiting_answer: false, last_message: Message::Busy }
    }

    /// Whether a sent frame is still waiting for its echo.
    pub fn send_pending(&self) -> (r: bool)
        ensures
            r == (self.pending_echo@.len() != 0),
    {
        self.pending_echo.len() != 0
    }

    /// Opens a send: encodes the message and records its frame as the pending
    /// echo. While another frame is pending, nothing is changed and `None`
    /// says the sender must wait for that frame to be confirmed or to time
    /// out: the bus cannot tell two unconfirmed frames apart.
    pub fn begin_send(&mut self, message: &Message) -> (r: Option<Vec<u8>>)
        ensures
            old(self).pending_echo@.len() != 0 ==> r is None && *final(self) == *old(self),
            old(self).pending_echo@.len() == 0 ==> {
                &&& r matches Some(bytes) && bytes@ == message.spec_to_wire()
                &&& final(self).pending_echo@ == message.spec_to_wire()
                &&& final(self).awaiting_answer == old(self).awaiting_answer
                &&& final(self).last_message == old(self).last_message
            },
    {
        if self.pending_echo.len() != 0 {
            return None;
        }
        let bytes = message.to_message();
        self.pending_echo = message.to_message();
        Some(bytes)
    }

    /// Releases the pending-echo slot after a timeout or a failed write, so a
    /// later send is not blocked by a frame that will never be confirmed.
    pub fn cancel_send(&mut self)
        ensures
            final(self).pending_echo@ == Seq::<u8>::empty(),
            final(self).awaiting_answer == old(self).awaiting_answer,
            final(self).last_message == old(self).last_message,
    {
        self.pending_echo = Vec::new();
    }

    /// Handles one complete inbound frame.
    ///
    /// A frame equal to the pending outbound frame confirms the echo and
    /// clears the pending slot; with `ignore_send_messages` set it is then
    /// held back entirely. Any other outcome yields the sink events in wire
    /// order: a decoding error (which also ends any wait for an answer), or
    /// the correlated answer where one is owed followed by the decoded
    /// message, with the awaited request updated by the message's own
    /// acknowledgment class.
    pub fn handle_frame(&mut self, buf: &[u8], ignore_send_messages: bool) -> (r: FrameReport)
        requires
            buf@.len() >= 1,
        ensures
            r.echo_confirmed == spec_echo_match(old(self).pending_echo@, buf@),
            final(self).pending_echo@ == if r.echo_confirmed {
                Seq::<u8>::empty()
            } else {
                old(self).pending_echo@
            },
            r.suppressed == (r.echo_confirmed && ignore_send_messages),
            r.suppressed ==> r.events@.len() == 0 && final(self).awaiting_answer == old(
                self,
            ).awaiting_answer && final(self).last_message == old(self).last_message,
            !r.suppressed ==> match Message::spec_parse(buf@) {
                Err(f) => {
                    &&& r.events@.len() == 1
                    &&& r.events@[0] matches SinkEvent::Error(e) && fault_matches(e, f)
                    &&& final(self).awaiting_answer == false
                    &&& final(self).last_message == old(self).last_message
                },
                Ok(msg) => {
                    &&& final(self).awaiting_answer == spec_next_awaiting(
                        old(self).awaiting_answer,
                        msg,
                    )
                    &&& final(self).last_message == spec_next_last(old(self).last_message, msg)
                    &&& match spec_answer(old(self).awaiting_answer, old(self).last_message, msg) {
                        Some(pair) => r.events@.len() == 2 && r.events@[0] == SinkEvent::Answer(
                            pair.0,
                            pair.1,
                        ) && r.events@[1] == SinkEvent::Message(msg),
                        None => r.events@.len() == 1 && r.events@[0] == SinkEvent::Message(msg),
                    }
                },
            },
    {
        let echo_confirmed = self.pending_echo.len() != 0 && bytes_equal(
            self.pending_echo.as_slice(),
            buf,
        );
        if echo_confirmed {
            self.pending_echo = Vec::new();
            if ignore_send_messages {
                return FrameReport { echo_confirmed: true, suppressed: true, events: Vec::new() };
            }
        }

        match Message::parse(buf) {
            Err(err) => {
                self.awaiting_answer = false;
                let mut events: Vec<SinkEvent> = Vec::new();
                events.push(SinkEvent::Error(err));
                FrameReport { echo_confirmed, suppressed: false, events }
            },
            Ok(message) => {
                let mut events: Vec<SinkEvent> = Vec::new();

                if self.awaiting_answer {
                    match message {
                        Message::LongAck(lopc, _) => {
                            if lopc.check_opc(&self.last_message) {
                                events.push(SinkEvent::Answer(message, self.last_message));
                            }
                        },
                        Message::SlRdData(..) => {
                            if self.last_message.await_slot_data() {
                                events.push(SinkEvent::Answer(message, self.last_message));
                            }
                        },
                        _ => {},
                    }
                }

                if message.answer_follows() || message.await_slot_data() {
                    self.awaiting_answer = true;
                    self.last_message = message;
                } else if Message::Busy != message {
                    self.awaiting_answer = false;
                }

                events.push(SinkEvent::Message(message));
                FrameReport { echo_confirmed, suppressed: false, events }
            },
        }
    }
}

} // verus!
