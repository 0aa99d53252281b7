use locodrive::args::{
    AddressArg, Consist, CvDataArg, DecoderType, DirfArg, FunctionArg, FunctionGroup, IdArg,
    ImAddress, ImArg, ImFunctionType, InArg, LopcArg, MultiSenseArg, PStat, Pcmd, SensorLevel,
    SlotArg, SndArg, SourceType, SpeedArg, Stat1Arg, Stat2Arg, State, SwitchArg, SwitchDirection,
    TrkArg, WrSlDataStructure,
};
use locodrive::error::MessageParseError;
use locodrive::protocol::Message;

/// XOR-folds a byte slice, the invariant check every valid frame satisfies.
fn fold_xor(frame: &[u8]) -> u8 {
    frame.iter().fold(0, |acc, &b| acc ^ b)
}

/// Every frame produced by the encoder folds to `0xFF`.
#[test]
fn checksum_of_every_frame_folds_to_ff() {
    let samples = vec![
        Message::Idle,
        Message::GpOn,
        Message::LocoAdr(AddressArg::new(16383)),
        Message::LocoSpd(SlotArg::new(10), SpeedArg::Drive(122)),
        Message::SwReq(SwitchArg::new(15, SwitchDirection::Curved, true)),
        Message::MultiSense(MultiSenseArg::new(3, false, 3, 7), AddressArg::new(12)),
        Message::UhliFun(SlotArg::new(1), FunctionArg::new(FunctionGroup::F9TO11)),
        Message::ImmPacket(ImArg::new(32, ImAddress::Short(12), ImFunctionType::F21to28, 0)),
    ];
    for message in samples {
        let frame = message.to_message();
        assert_eq!(fold_xor(frame.as_slice()), 0xFF);
    }
}

/// Corrupting any single byte of a valid frame is caught: the payload and
/// checksum positions report the broken checksum; the opcode and length
/// bytes may instead be caught as an unknown opcode or a truncated frame,
/// but never decode to a message.
#[test]
fn corrupting_any_byte_is_detected() {
    let frame = Message::LocoSpd(SlotArg::new(10), SpeedArg::Drive(122)).to_message();
    for i in 0..frame.len() {
        let mut corrupted = frame.clone();
        corrupted[i] ^= 0x01;
        let outcome = Message::parse(corrupted.as_slice());
        assert!(outcome.is_err());
        if i >= 1 {
            assert!(matches!(outcome, Err(MessageParseError::InvalidChecksum)));
        }
    }
}

/// The declared frame length rules decoding: a four-byte frame with extra
/// bytes behind it decodes the same, and a shorter buffer is a truncation.
#[test]
fn parse_reads_exactly_the_declared_length() {
    let mut frame = Message::LocoSpd(SlotArg::new(10), SpeedArg::Drive(122)).to_message();
    let message = Message::parse(frame.as_slice()).unwrap();
    frame.push(0x55);
    frame.push(0xAA);
    assert_eq!(Message::parse(frame.as_slice()).unwrap(), message);

    let short = &frame[0..3];
    assert!(matches!(
        Message::parse(short),
        Err(MessageParseError::UnexpectedEnd(0xA0))
    ));
}

/// A variable-length frame that declares fourteen bytes but offers only ten
/// is a truncation carrying its opcode.
#[test]
fn truncated_variable_frame_reports_its_opcode() {
    let buf: [u8; 10] = [0xE7, 0x0E, 0x00, 0x00, 0x00, 0x00, 0x00, 0x00, 0x00, 0x00];
    assert!(matches!(
        Message::parse(&buf),
        Err(MessageParseError::UnexpectedEnd(0xE7))
    ));
}

/// Out-of-range constructor inputs are masked to their wire bits and read
/// back masked, without a panic.
#[test]
fn out_of_range_inputs_are_masked() {
    assert_eq!(SlotArg::new(200).slot(), 72);
    assert_eq!(IdArg::new(0xFFFF).id(), 0x3FFF);
    assert_eq!(InArg::new(0xFFFF, SourceType::Switch, SensorLevel::High, false).address(), 0x07FF);
    assert_eq!(MultiSenseArg::new(0xFF, true, 0, 0).m_type(), 0x07);
}

/// The speed frame for slot 10 at drive step 122: its exact bytes, its
/// checksum formula, and the message it decodes back to.
#[test]
fn speed_frame_for_slot_ten() {
    let message = Message::LocoSpd(SlotArg::new(10), SpeedArg::Drive(122));
    let frame = message.to_message();
    assert_eq!(frame[0], 0xA0);
    assert_eq!(frame[1], 0x0A);
    assert_eq!(frame[2], 0x7B);
    assert_eq!(frame[3], 0xFF ^ (0xA0 ^ 0x0A ^ 0x7B));
    assert_eq!(frame.len(), 4);
    assert_eq!(
        Message::parse(frame.as_slice()).unwrap(),
        Message::LocoSpd(SlotArg::new(10), SpeedArg::Drive(122))
    );
}

/// An unrecognised opcode class is reported with the opcode byte.
#[test]
fn unknown_opcode_is_reported() {
    assert!(matches!(
        Message::parse(&[0x00]),
        Err(MessageParseError::UnknownOpcode(0x00))
    ));
    assert!(matches!(
        Message::parse(&[0x7F, 0x80]),
        Err(MessageParseError::UnknownOpcode(0x7F))
    ));
}

/// A frame that does not fold to `0xFF` is a checksum failure.
#[test]
fn invalid_checksum_is_reported() {
    assert!(matches!(
        Message::parse(&[0x85, 0x00]),
        Err(MessageParseError::InvalidChecksum)
    ));
}

/// A slot-function frame whose fixed byte is not `0x20` is a format failure.
#[test]
fn invalid_format_is_reported() {
    let mut frame = vec![0xD4, 0x21, 0x01, 0x07, 0x00];
    frame.push(0xFF ^ fold_xor(frame.as_slice()));
    assert!(matches!(
        Message::parse(frame.as_slice()),
        Err(MessageParseError::InvalidFormat(_))
    ));
}

/// A slot status whose decoder bits have no defined mapping is a format
/// failure rather than a crash.
#[test]
fn undefined_decoder_type_is_reported() {
    // A four-byte slot-status write whose status byte ends in the undefined
    // decoder bit pattern 0x05.
    let mut frame = vec![0xB5, 0x03, 0x05];
    frame.push(0xFF ^ fold_xor(frame.as_slice()));
    assert!(matches!(
        Message::parse(frame.as_slice()),
        Err(MessageParseError::InvalidFormat(_))
    ));
}

/// The direction-and-functions byte exposes its flags bit by bit.
#[test]
fn dirf_flags_read_back() {
    let dirf = DirfArg::new(true, false, true, false, true, false);
    assert!(dirf.dir());
    assert!(!dirf.f(0));
    assert!(dirf.f(1));
    assert!(!dirf.f(2));
    assert!(dirf.f(3));
    assert!(!dirf.f(4));
    assert!(!dirf.f(9));

    let mut dirf = DirfArg::new(false, false, false, false, false, false);
    dirf.set_dir(true);
    dirf.set_f(0, true);
    assert!(dirf.dir());
    assert!(dirf.f(0));
    dirf.set_f(0, false);
    assert!(!dirf.f(0));
}

/// The sound byte exposes its four flags.
#[test]
fn snd_flags_read_back() {
    let mut snd = SndArg::new(true, false, false, true);
    assert!(snd.f(5));
    assert!(!snd.f(6));
    assert!(snd.f(8));
    assert!(!snd.f(4));
    snd.set_f(6, true);
    assert!(snd.f(6));
}

/// The speed codec maps both stop codes to the plain speed zero.
#[test]
fn speed_accessors() {
    assert_eq!(SpeedArg::Stop.get_spd(), 0);
    assert_eq!(SpeedArg::EmergencyStop.get_spd(), 0);
    assert_eq!(SpeedArg::Drive(100).get_spd(), 100);
    assert_eq!(SpeedArg::new(0), SpeedArg::Stop);
    assert_eq!(SpeedArg::new(70), SpeedArg::Drive(70));
}

/// The switch request for switch 15, curved and activated, has the exact
/// wire bytes of the protocol.
#[test]
fn switch_request_frame_bytes() {
    let frame = Message::SwReq(SwitchArg::new(15, SwitchDirection::Curved, true)).to_message();
    assert_eq!(frame, vec![0xB0, 0x0F, 0x10, 0xFF ^ (0xB0 ^ 0x0F ^ 0x10)]);
}

/// The long-acknowledgment opcode copy matches the message it answers.
#[test]
fn lopc_matches_its_message() {
    let request = Message::SwAck(SwitchArg::new(1, SwitchDirection::Straight, true));
    let lopc = LopcArg::new(0xBD);
    assert!(lopc.check_opc(&request));
    assert!(!lopc.check_opc(&Message::GpOn));
}

/// The programming command and error bytes round-trip their flags.
#[test]
fn pcmd_and_pstat_flags() {
    let mut pcmd = Pcmd::new(true, false, true, false, true);
    assert!(pcmd.write());
    assert!(!pcmd.byte_mode());
    assert!(pcmd.ops_mode());
    assert!(!pcmd.ty0());
    assert!(pcmd.ty1());
    pcmd.set_byte_mode(true);
    assert!(pcmd.byte_mode());

    let pstat = PStat::new(true, false, true, false);
    assert!(pstat.user_aborted());
    assert!(!pstat.no_read_ack());
    assert!(pstat.no_write_ack());
    assert!(!pstat.programming_track_empty());
    assert_eq!(PStat::parse(pstat.stat()), pstat);
}

/// The control-variable codec stores and reads its bits.
#[test]
fn cv_data_bits() {
    let mut cv = CvDataArg::new();
    cv.set_data(7, true);
    cv.set_cv(9, true);
    assert!(cv.data(7));
    assert!(!cv.data(0));
    assert!(cv.cv(9));
    assert!(!cv.cv(2));
}


/// The messages whose acceptance the bus confirms with a later reply are
/// exactly the loco-address request, the three switch requests, the slot
/// write and the immediate packet; the slot-data kinds are the loco-address
/// request, the slot-data request and the three slot-moving requests.
#[test]
fn acknowledgment_classification() {
    let adr = AddressArg::new(3);
    let sw = SwitchArg::new(1, SwitchDirection::Straight, true);
    let slot = SlotArg::new(5);
    let wr = WrSlDataStructure::DataGeneral(
        slot,
        Stat1Arg::new(false, Consist::Free, State::Free, DecoderType::Regular28),
        Stat2Arg::new(false, false, false),
        adr,
        SpeedArg::Stop,
        DirfArg::new(false, false, false, false, false, false),
        TrkArg::new(true, true, true, false),
        SndArg::new(false, false, false, false),
        IdArg::new(0),
    );
    let im = ImArg::new(0, ImAddress::Short(1), ImFunctionType::F9to12, 0);

    assert!(Message::LocoAdr(adr).answer_follows());
    assert!(Message::SwAck(sw).answer_follows());
    assert!(Message::SwState(sw).answer_follows());
    assert!(Message::SwReq(sw).answer_follows());
    assert!(Message::WrSlData(wr).answer_follows());
    assert!(Message::ImmPacket(im).answer_follows());

    assert!(!Message::Idle.answer_follows());
    assert!(!Message::GpOn.answer_follows());
    assert!(!Message::Busy.answer_follows());
    assert!(!Message::RqSlData(slot).answer_follows());
    assert!(!Message::LinkSlots(slot, slot).answer_follows());
    assert!(!Message::LocoSpd(slot, SpeedArg::Stop).answer_follows());

    assert!(Message::LocoAdr(adr).await_slot_data());
    assert!(Message::RqSlData(slot).await_slot_data());
    assert!(Message::MoveSlots(slot, slot).await_slot_data());
    assert!(Message::LinkSlots(slot, slot).await_slot_data());
    assert!(Message::UnlinkSlots(slot, slot).await_slot_data());
    assert!(!Message::SwReq(sw).await_slot_data());
    assert!(!Message::Idle.await_slot_data());
}
