use locodrive::args::{Ack1Arg, LopcArg, SlotArg, SpeedArg, SwitchArg, SwitchDirection};
use locodrive::error::MessageParseError;
use locodrive::loco_controller::{LocoDriveSession, SinkEvent};
use locodrive::protocol::Message;

/// Counts the answer events in a report's event list.
fn count_answers(events: &[SinkEvent]) -> usize {
    events.iter().filter(|e| matches!(e, SinkEvent::Answer(_, _))).count()
}

/// A transport that echoes the written frame back once and then answers with
/// a matching long acknowledgment completes the send and yields exactly one
/// answer event.
#[test]
fn echo_then_matching_ack_yields_one_answer() {
    let mut session = LocoDriveSession::new();
    let request = Message::SwAck(SwitchArg::new(15, SwitchDirection::Curved, true));

    // The sender opens its turn and writes the frame to the mock transport.
    let written = session.begin_send(&request).expect("no send was in flight");
    assert!(session.send_pending());

    // The transport echoes the identical frame back once.
    let echo_report = session.handle_frame(written.as_slice(), false);
    assert!(echo_report.echo_confirmed);
    assert!(!echo_report.suppressed);
    assert!(!session.send_pending());
    assert_eq!(count_answers(&echo_report.events), 0);
    assert!(matches!(echo_report.events.as_slice(), [SinkEvent::Message(m)] if *m == request));

    // The bus then answers with a long acknowledgment whose opcode copy
    // matches the request.
    let ack = Message::LongAck(LopcArg::new(0xBD), Ack1Arg::new(true));
    let ack_frame = ack.to_message();
    let ack_report = session.handle_frame(ack_frame.as_slice(), false);
    assert!(!ack_report.echo_confirmed);
    assert_eq!(count_answers(&ack_report.events), 1);
    assert!(matches!(
        ack_report.events.as_slice(),
        [SinkEvent::Answer(answer, answered), SinkEvent::Message(m)]
            if *answer == ack && *answered == request && *m == ack
    ));
}

/// A long acknowledgment whose opcode copy does not match the awaited request
/// is forwarded as a plain message, without an answer event.
#[test]
fn mismatched_ack_is_not_correlated() {
    let mut session = LocoDriveSession::new();
    let request = Message::SwAck(SwitchArg::new(15, SwitchDirection::Curved, true));
    let written = session.begin_send(&request).unwrap();
    session.handle_frame(written.as_slice(), false);

    let ack = Message::LongAck(LopcArg::new(0xBC), Ack1Arg::new(true));
    let ack_frame = ack.to_message();
    let report = session.handle_frame(ack_frame.as_slice(), false);
    assert_eq!(count_answers(&report.events), 0);
    assert!(matches!(report.events.as_slice(), [SinkEvent::Message(m)] if *m == ack));
}

/// While the first frame has not been confirmed, a second send is refused and
/// the pending bytes of the first stay untouched.
#[test]
fn second_send_cannot_overwrite_pending_echo() {
    let mut session = LocoDriveSession::new();
    let first = Message::LocoSpd(SlotArg::new(10), SpeedArg::Drive(100));
    let second = Message::LocoSpd(SlotArg::new(10), SpeedArg::Stop);

    let first_bytes = session.begin_send(&first).expect("no send was in flight");
    assert!(session.send_pending());

    // The second sender must wait: its attempt changes nothing.
    assert!(session.begin_send(&second).is_none());
    assert!(session.send_pending());
    assert_eq!(session.pending_echo, first_bytes);

    // Only the echo of the first frame frees the slot.
    let report = session.handle_frame(first_bytes.as_slice(), false);
    assert!(report.echo_confirmed);
    assert!(!session.send_pending());
    assert!(session.begin_send(&second).is_some());
}

/// A send that timed out releases the pending slot through its cancel, and a
/// later send proceeds.
#[test]
fn cancelled_send_frees_the_slot() {
    let mut session = LocoDriveSession::new();
    let first = Message::GpOn;
    session.begin_send(&first).unwrap();
    assert!(session.send_pending());
    session.cancel_send();
    assert!(!session.send_pending());
    assert!(session.begin_send(&Message::GpOff).is_some());
}

/// With the ignore-own-traffic mode set, a confirmed echo is held back from
/// the sink entirely.
#[test]
fn confirmed_echo_can_be_suppressed() {
    let mut session = LocoDriveSession::new();
    let request = Message::GpOn;
    let written = session.begin_send(&request).unwrap();
    let report = session.handle_frame(written.as_slice(), true);
    assert!(report.echo_confirmed);
    assert!(report.suppressed);
    assert!(report.events.is_empty());
    assert!(!session.send_pending());
}

/// A frame that cannot be decoded is reported to the sink as an error event
/// and does not end the session.
#[test]
fn bad_frame_becomes_an_error_event() {
    let mut session = LocoDriveSession::new();
    let report = session.handle_frame(&[0x85, 0x00], false);
    assert!(!report.echo_confirmed);
    assert!(matches!(
        report.events.as_slice(),
        [SinkEvent::Error(MessageParseError::InvalidChecksum)]
    ));

    // The session still decodes the next valid frame.
    let frame = Message::GpOn.to_message();
    let report = session.handle_frame(frame.as_slice(), false);
    assert!(matches!(report.events.as_slice(), [SinkEvent::Message(Message::GpOn)]));
}

/// A slot-data response answers a request that awaits slot data.
#[test]
fn slot_data_answers_a_slot_request() {
    let mut session = LocoDriveSession::new();
    let request = Message::RqSlData(SlotArg::new(10));
    let written = session.begin_send(&request).unwrap();
    session.handle_frame(written.as_slice(), false);

    // A slot-data response frame, built by hand: slot 10, all other payload
    // bytes zero, carried by the variable-length opcode.
    let mut frame: Vec<u8> = vec![0xE7, 0x0E, 0x0A, 0x00, 0x00, 0x00, 0x00, 0x00, 0x00, 0x00, 0x00, 0x00, 0x00];
    let fold = frame.iter().fold(0, |acc, &b| acc ^ b);
    frame.push(0xFF ^ fold);
    let report = session.handle_frame(frame.as_slice(), false);
    assert_eq!(count_answers(&report.events), 1);
    assert!(matches!(
        report.events.as_slice(),
        [SinkEvent::Answer(_, answered), SinkEvent::Message(_)] if *answered == request
    ));
}

/// A move-slots request expects a slot-data response even though its opcode
/// announces no long acknowledgment, so the response is correlated with it.
#[test]
fn slot_move_awaits_slot_data() {
    let mut session = LocoDriveSession::new();
    let request = Message::MoveSlots(SlotArg::new(9), SlotArg::new(9));
    assert!(!request.answer_follows());
    assert!(request.await_slot_data());
    let written = session.begin_send(&request).unwrap();
    session.handle_frame(written.as_slice(), false);

    let mut frame: Vec<u8> = vec![0xE7, 0x0E, 0x09, 0x00, 0x00, 0x00, 0x00, 0x00, 0x00, 0x00, 0x00, 0x00, 0x00];
    let fold = frame.iter().fold(0, |acc, &b| acc ^ b);
    frame.push(0xFF ^ fold);
    let report = session.handle_frame(frame.as_slice(), false);
    assert_eq!(count_answers(&report.events), 1);
    assert!(matches!(
        report.events.as_slice(),
        [SinkEvent::Answer(_, answered), SinkEvent::Message(_)] if *answered == request
    ));
}

/// A message that expects no answer ends the wait of a prior request, but the
/// busy code of the master leaves it standing.
#[test]
fn busy_does_not_supersede_an_awaited_request() {
    let mut session = LocoDriveSession::new();
    let request = Message::SwState(SwitchArg::new(2, SwitchDirection::Straight, false));
    let written = session.begin_send(&request).unwrap();
    session.handle_frame(written.as_slice(), false);
    assert!(session.awaiting_answer);

    // The master asks for time: the wait stands.
    let busy = Message::Busy.to_message();
    session.handle_frame(busy.as_slice(), false);
    assert!(session.awaiting_answer);

    // An unrelated plain message supersedes the request.
    let other = Message::LocoSpd(SlotArg::new(3), SpeedArg::Drive(10)).to_message();
    session.handle_frame(other.as_slice(), false);
    assert!(!session.awaiting_answer);
}
