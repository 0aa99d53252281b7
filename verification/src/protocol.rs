use vstd::prelude::*;

use crate::args::{
    Ack1Arg, AddressArg, DirfArg, DstArg, FunctionArg, IdArg, ImArg, InArg, LopcArg, MultiSenseArg,
    ProgrammingAbortedArg, PxctData, RepStructure, SlotArg, SnArg, SndArg, SpeedArg, Stat1Arg,
    Stat2Arg, SwitchArg, TrkArg, WrSlDataStructure,
};
use crate::error::{MessageParseError, ParseFault};

verus! {

/// The messages of the bus protocol: one variant per opcode, each carrying
/// the decoded field codecs of its payload.
#[derive(Debug, Copy, Clone, PartialEq, Eq, Structural)]
pub enum Message {
    /// Forces the bus into its idle state; an emergency stop for all trains.
    Idle,
    /// Turns the global power on.
    GpOn,
    /// Turns the global power off.
    GpOff,
    /// The master is busy and needs time to fulfil a request.
    Busy,
    /// Requests a loco address to be put into a free slot by the master.
    LocoAdr(AddressArg),
    /// Requests the state of a switch, with an acknowledgment.
    SwAck(SwitchArg),
    /// Requests the state of a switch.
    SwState(SwitchArg),
    /// Requests the data of a slot.
    RqSlData(SlotArg),
    /// Moves all slot information from a source to a destination slot.
    MoveSlots(SlotArg, SlotArg),
    /// Links the first slot to the second.
    LinkSlots(SlotArg, SlotArg),
    /// Unlinks the first slot from the second.
    UnlinkSlots(SlotArg, SlotArg),
    /// Sets the function bits of a logically linked slot.
    ConsistFunc(SlotArg, DirfArg),
    /// Writes the first status byte of a slot.
    SlotStat1(SlotArg, Stat1Arg),
    /// A long acknowledgment: reports whether a prior request, identified by
    /// its opcode copy, succeeded.
    LongAck(LopcArg, Ack1Arg),
    /// General sensor input from an addressed sensor.
    InputRep(InArg),
    /// A switch sensor report: the type and meta information of a switch.
    SwRep(SnArg),
    /// Requests a switch to move to a direction and activation state.
    SwReq(SwitchArg),
    /// Sets the sound function bits of a slot (functions 5 to 8).
    LocoSnd(SlotArg, SndArg),
    /// Sets the direction and first five function bits of a slot.
    LocoDirf(SlotArg, DirfArg),
    /// Sets the speed of a slot.
    LocoSpd(SlotArg, SpeedArg),
    /// Power management and transponding information.
    MultiSense(MultiSenseArg, AddressArg),
    /// Access to the function bits 9 to 28 of a slot.
    UhliFun(SlotArg, FunctionArg),
    /// Writes special or complete slot data.
    WrSlData(WrSlDataStructure),
    /// A slot data response holding all information of the slot.
    SlRdData(
        SlotArg,
        Stat1Arg,
        AddressArg,
        SpeedArg,
        DirfArg,
        TrkArg,
        Stat2Arg,
        SndArg,
        IdArg,
    ),
    /// Reports that the programming service mode was aborted.
    ProgrammingAborted(ProgrammingAbortedArg),
    /// Moves eight bytes peer to peer from a source slot to a destination.
    PeerXfer(SlotArg, DstArg, PxctData),
    /// A detector report in one of four sub-formats.
    Rep(RepStructure),
    /// Sends an n-byte packet immediately.
    ImmPacket(ImArg),
}

/// The XOR-fold of a byte sequence: zero for the empty sequence, and each
/// byte folded in from the left.
pub open spec fn fold_xor(s: Seq<u8>) -> u8
    decreases s.len(),
{
    if s.len() == 0 {
        0u8
    } else {
        fold_xor(s.drop_last()) ^ s.last()
    }
}

/// Folding one more byte XORs it into the fold.
pub proof fn lemma_fold_xor_push(s: Seq<u8>, b: u8)
    ensures
        fold_xor(s.push(b)) == fold_xor(s) ^ b,
{
    assert(s.push(b).drop_last() =~= s);
}

/// Appending the checksum byte `0xFF XOR fold` completes any byte sequence to
/// a frame whose whole fold is `0xFF`.
pub proof fn lemma_wire_checksum(body: Seq<u8>)
    ensures
        fold_xor(body.push(0xFF ^ fold_xor(body))) == 0xFF,
{
    lemma_fold_xor_push(body, 0xFF ^ fold_xor(body));
    let f = fold_xor(body);
    assert(f ^ (0xFF ^ f) == 0xFF) by (bit_vector);
}

/// Changing one byte of a frame changes its XOR-fold, so a frame whose fold
/// was `0xFF` no longer folds to `0xFF`.
pub proof fn lemma_fold_xor_corrupt(s: Seq<u8>, i: int, b: u8)
    requires
        0 <= i < s.len(),
        b != s[i],
        fold_xor(s) == 0xFF,
    ensures
        fold_xor(s.update(i, b)) != 0xFF,
    decreases s.len(),
{
    let t = s.update(i, b);
    if i == s.len() - 1 {
        assert(t.drop_last() =~= s.drop_last());
        let f = fold_xor(s.drop_last());
        let x = s[i];
        assert(f ^ x == 0xFF && b != x ==> f ^ b != 0xFF) by (bit_vector);
    } else {
        assert(t.drop_last() =~= s.drop_last().update(i, b));
        assert(t.last() == s.last());
        let f = fold_xor(s.drop_last());
        let g = fold_xor(s.drop_last().update(i, b));
        let x = s.last();
        assert(f ^ x == 0xFF ==> f == 0xFF ^ x) by (bit_vector);
        lemma_fold_xor_neq(s.drop_last(), i, b);
        assert(g != f);
        assert(f == 0xFF ^ x && g != f ==> g ^ x != 0xFF) by (bit_vector);
    }
}

/// Changing one byte of a sequence changes its XOR-fold.
pub proof fn lemma_fold_xor_neq(s: Seq<u8>, i: int, b: u8)
    requires
        0 <= i < s.len(),
        b != s[i],
    ensures
        fold_xor(s.update(i, b)) != fold_xor(s),
    decreases s.len(),
{
    let t = s.update(i, b);
    if i == s.len() - 1 {
        assert(t.drop_last() =~= s.drop_last());
        let f = fold_xor(s.drop_last());
        let x = s[i];
        assert(x != b ==> f ^ x != f ^ b) by (bit_vector);
    } else {
        assert(t.drop_last() =~= s.drop_last().update(i, b));
        lemma_fold_xor_neq(s.drop_last(), i, b);
        let f = fold_xor(s.drop_last());
        let g = fold_xor(s.drop_last().update(i, b));
        let x = s.last();
        assert(f != g ==> f ^ x != g ^ x) by (bit_vector);
    }
}

/// How the length of a frame is found from its opcode byte.
#[derive(Debug, Copy, Clone, PartialEq, Eq, Structural)]
pub enum LengthClass {
    /// The opcode class fixes the whole-frame length.
    Fixed(u8),
    /// The second frame byte declares the whole-frame length.
    Variable,
    /// The opcode belongs to no known class.
    Unknown,
}

/// The length class selected by the three most significant opcode bits.
pub open spec fn spec_length_class(opc: u8) -> LengthClass {
    if opc & 0xE0 == 0x80 {
        LengthClass::Fixed(2)
    } else if opc & 0xE0 == 0xA0 {
        LengthClass::Fixed(4)
    } else if opc & 0xE0 == 0xC0 {
        LengthClass::Fixed(6)
    } else if opc & 0xE0 == 0xE0 {
        LengthClass::Variable
    } else {
        LengthClass::Unknown
    }
}

/// Reads the length class of a frame from its opcode byte.
pub fn length_class(opc: u8) -> (r: LengthClass)
    ensures
        r == spec_length_class(opc),
{
    if opc & 0xE0 == 0x80 {
        LengthClass::Fixed(2)
    } else if opc & 0xE0 == 0xA0 {
        LengthClass::Fixed(4)
    } else if opc & 0xE0 == 0xC0 {
        LengthClass::Fixed(6)
    } else if opc & 0xE0 == 0xE0 {
        LengthClass::Variable
    } else {
        LengthClass::Unknown
    }
}

impl Message {
    /// The opcode byte of this message.
    pub open spec fn spec_opc(self) -> u8 {
        match self {
            Message::Idle => 0x85u8,
            Message::GpOn => 0x83u8,
            Message::GpOff => 0x82u8,
            Message::Busy => 0x81u8,
            Message::LocoAdr(..) => 0xBFu8,
            Message::SwAck(..) => 0xBDu8,
            Message::SwState(..) => 0xBCu8,
            Message::RqSlData(..) => 0xBBu8,
            Message::MoveSlots(..) => 0xBAu8,
            Message::LinkSlots(..) => 0xB9u8,
            Message::UnlinkSlots(..) => 0xB8u8,
            Message::ConsistFunc(..) => 0xB6u8,
            Message::SlotStat1(..) => 0xB5u8,
            Message::LongAck(..) => 0xB4u8,
            Message::InputRep(..) => 0xB2u8,
            Message::SwRep(..) => 0xB1u8,
            Message::SwReq(..) => 0xB0u8,
            Message::LocoSnd(..) => 0xA2u8,
            Message::LocoDirf(..) => 0xA1u8,
            Message::LocoSpd(..) => 0xA0u8,
            Message::MultiSense(..) => 0xD0u8,
            Message::UhliFun(..) => 0xD4u8,
            Message::WrSlData(..) => 0xEFu8,
            Message::SlRdData(..) => 0xE7u8,
            Message::ProgrammingAborted(..) => 0xE6u8,
            Message::PeerXfer(..) => 0xE5u8,
            Message::Rep(..) => 0xE4u8,
            Message::ImmPacket(..) => 0xEDu8,
        }
    }

    /// Every embedded field codec value is wire-legal.
    pub open spec fn wf(self) -> bool {
        match self {
            Message::Idle => true,
            Message::GpOn => true,
            Message::GpOff => true,
            Message::Busy => true,
            Message::LocoAdr(adr) => adr.wf(),
            Message::SwAck(sw) => sw.wf(),
            Message::SwState(sw) => sw.wf(),
            Message::RqSlData(slot) => slot.wf(),
            Message::MoveSlots(src, dst) => src.wf() && dst.wf(),
            Message::LinkSlots(sl1, sl2) => sl1.wf() && sl2.wf(),
            Message::UnlinkSlots(sl1, sl2) => sl1.wf() && sl2.wf(),
            Message::ConsistFunc(slot, dirf) => slot.wf() && dirf.wf(),
            Message::SlotStat1(slot, _) => slot.wf(),
            Message::LongAck(lopc, _) => lopc.wf(),
            Message::InputRep(input) => input.wf(),
            Message::SwRep(sn) => sn.wf(),
            Message::SwReq(sw) => sw.wf(),
            Message::LocoSnd(slot, snd) => slot.wf() && snd.wf(),
            Message::LocoDirf(slot, dirf) => slot.wf() && dirf.wf(),
            Message::LocoSpd(slot, spd) => slot.wf() && spd.wf(),
            Message::MultiSense(ms, adr) => ms.wf() && adr.wf(),
            Message::UhliFun(slot, _) => slot.wf(),
            Message::WrSlData(w) => w.wf(),
            Message::SlRdData(slot, _, adr, spd, dirf, _, _, snd, id) => slot.wf() && adr.wf()
                && spd.wf() && dirf.wf() && snd.wf() && id.wf(),
            Message::ProgrammingAborted(p) => p.wf(),
            Message::PeerXfer(src, dst, pxct) => src.wf() && dst.wf() && pxct.wf(),
            Message::Rep(rep) => rep.wf(),
            Message::ImmPacket(im) => im.wf(),
        }
    }

    /// The frame body of this message: every wire byte except the trailing
    /// checksum.
    pub open spec fn spec_body(self) -> Seq<u8> {
        match self {
            Message::Idle => seq![0x85u8],
            Message::GpOn => seq![0x83u8],
            Message::GpOff => seq![0x82u8],
            Message::Busy => seq![0x81u8],
            Message::LocoAdr(adr) => seq![0xBFu8, adr.spec_adr2(), adr.spec_adr1()],
            Message::SwAck(sw) => seq![0xBDu8, sw.spec_sw1(), sw.spec_sw2()],
            Message::SwState(sw) => seq![0xBCu8, sw.spec_sw1(), sw.spec_sw2()],
            Message::RqSlData(slot) => seq![0xBBu8, slot.0, 0x00u8],
            Message::MoveSlots(src, dst) => seq![0xBAu8, src.0, dst.0],
            Message::LinkSlots(sl1, sl2) => seq![0xB9u8, sl1.0, sl2.0],
            Message::UnlinkSlots(sl1, sl2) => seq![0xB8u8, sl1.0, sl2.0],
            Message::ConsistFunc(slot, dirf) => seq![0xB6u8, slot.0, dirf.0],
            Message::SlotStat1(slot, stat1) => seq![0xB5u8, slot.0, stat1.spec_stat1()],
            Message::LongAck(lopc, ack1) => seq![0xB4u8, lopc.0, ack1.0],
            Message::InputRep(input) => seq![0xB2u8, input.spec_in1(), input.spec_in2()],
            Message::SwRep(sn) => seq![0xB1u8, sn.spec_sn1(), sn.spec_sn2()],
            Message::SwReq(sw) => seq![0xB0u8, sw.spec_sw1(), sw.spec_sw2()],
            Message::LocoSnd(slot, snd) => seq![0xA2u8, slot.0, snd.0],
            Message::LocoDirf(slot, dirf) => seq![0xA1u8, slot.0, dirf.0],
            Message::LocoSpd(slot, spd) => seq![0xA0u8, slot.0, spd.spec_spd()],
            Message::MultiSense(ms, adr) => seq![
                0xD0u8,
                ms.spec_m_high(),
                ms.spec_zas(),
                adr.spec_adr2(),
                adr.spec_adr1(),
            ],
            Message::UhliFun(slot, function) => seq![
                0xD4u8,
                0x20u8,
                slot.0,
                function.0,
                function.1,
            ],
            Message::WrSlData(w) => w.spec_to_message(),
            Message::SlRdData(slot, stat1, adr, spd, dirf, trk, stat2, snd, id) => seq![
                0xE7u8,
                0x0Eu8,
                slot.0,
                stat1.spec_stat1(),
                adr.spec_adr1(),
                spd.spec_spd(),
                dirf.0,
                trk.spec_trk_arg(),
                stat2.spec_stat2(),
                adr.spec_adr2(),
                snd.0,
                id.spec_id1(),
                id.spec_id2(),
            ],
            Message::ProgrammingAborted(p) => p.spec_to_message(),
            Message::ImmPacket(im) => seq![
                0xEDu8,
                0x0Bu8,
                0x7Fu8,
                im.spec_reps(),
                im.dhi,
                im.spec_im1(),
                im.spec_im2(),
                im.spec_im3(),
                im.spec_im4(),
                im.im5,
            ],
            Message::Rep(rep) => match rep {
                RepStructure::RFID7Report(report) => report.spec_to_message(),
                RepStructure::RFID5Report(report) => report.spec_to_message(),
                RepStructure::LissyIrReport(report) => report.spec_to_message(),
                RepStructure::WheelcntReport(report) => report.spec_to_message(),
            },
            Message::PeerXfer(src, dst, pxct) => seq![
                0xE5u8,
                0x10u8,
                src.0,
                dst.spec_dst_low(),
                dst.spec_dst_high(),
                pxct.spec_pxct1(),
                PxctData::spec_low6(pxct.d1),
                PxctData::spec_low6(pxct.d2),
                PxctData::spec_low6(pxct.d3),
                PxctData::spec_low6(pxct.d4),
                pxct.spec_pxct2(),
                PxctData::spec_low6(pxct.d5),
                PxctData::spec_low6(pxct.d6),
                PxctData::spec_low6(pxct.d7),
                PxctData::spec_low6(pxct.d8),
            ],
        }
    }

    /// The whole wire frame of this message: its body followed by the
    /// checksum byte that makes the frame fold to `0xFF`.
    pub open spec fn spec_to_wire(self) -> Seq<u8> {
        self.spec_body().push(0xFF ^ fold_xor(self.spec_body()))
    }

    /// Whether the XOR-fold of `msg` is `0xFF`, the invariant every whole
    /// frame satisfies.
    fn validate(msg: &[u8]) -> (r: bool)
        ensures
            r == (fold_xor(msg@) == 0xFF),
    {
        let mut acc: u8 = 0;
        let mut i: usize = 0;
        while i < msg.len()
            invariant
                i <= msg@.len(),
                acc == fold_xor(msg@.subrange(0, i as int)),
            decreases msg@.len() - i,
        {
            proof {
                assert(msg@.subrange(0, i + 1).drop_last() =~= msg@.subrange(0, i as int));
            }
            acc = acc ^ msg[i];
            i += 1;
        }
        proof {
            assert(msg@.subrange(0, msg@.len() as int) =~= msg@);
        }
        acc == 0xFF
    }

    /// The checksum byte that completes `msg` to a valid frame.
    fn check_sum(msg: &[u8]) -> (r: u8)
        ensures
            r == 0xFF ^ fold_xor(msg@),
    {
        let mut acc: u8 = 0;
        let mut i: usize = 0;
        while i < msg.len()
            invariant
                i <= msg@.len(),
                acc == fold_xor(msg@.subrange(0, i as int)),
            decreases msg@.len() - i,
        {
            proof {
                assert(msg@.subrange(0, i + 1).drop_last() =~= msg@.subrange(0, i as int));
            }
            acc = acc ^ msg[i];
            i += 1;
        }
        proof {
            assert(msg@.subrange(0, msg@.len() as int) =~= msg@);
        }
        0xFF ^ acc
    }

    /// Encodes this message as its wire frame, with the checksum appended.
    pub fn to_message(self) -> (r: Vec<u8>)
        ensures
            r@ == self.spec_to_wire(),
    {
        let mut message: Vec<u8> = match self {
            Message::Idle => {
                let v = vec![0x85u8];
                proof {
                    assert(v@ =~= self.spec_body());
                }
                v
            },
            Message::GpOn => {
                let v = vec![0x83u8];
                proof {
                    assert(v@ =~= self.spec_body());
                }
                v
            },
            Message::GpOff => {
                let v = vec![0x82u8];
                proof {
                    assert(v@ =~= self.spec_body());
                }
                v
            },
            Message::Busy => {
                let v = vec![0x81u8];
                proof {
                    assert(v@ =~= self.spec_body());
                }
                v
            },
            Message::LocoAdr(adr_arg) => {
                let v = vec![0xBFu8, adr_arg.adr2(), adr_arg.adr1()];
                proof {
                    assert(v@ =~= self.spec_body());
                }
                v
            },
            Message::SwAck(switch_arg) => {
                let v = vec![0xBDu8, switch_arg.sw1(), switch_arg.sw2()];
                proof {
                    assert(v@ =~= self.spec_body());
                }
                v
            },
            Message::SwState(switch_arg) => {
                let v = vec![0xBCu8, switch_arg.sw1(), switch_arg.sw2()];
                proof {
                    assert(v@ =~= self.spec_body());
                }
                v
            },
            Message::RqSlData(slot_arg) => {
                let v = vec![0xBBu8, slot_arg.slot(), 0x00u8];
                proof {
                    assert(v@ =~= self.spec_body());
                }
                v
            },
            Message::MoveSlots(src, dst) => {
                let v = vec![0xBAu8, src.slot(), dst.slot()];
                proof {
                    assert(v@ =~= self.spec_body());
                }
                v
            },
            Message::LinkSlots(sl1, sl2) => {
                let v = vec![0xB9u8, sl1.slot(), sl2.slot()];
                proof {
                    assert(v@ =~= self.spec_body());
                }
                v
            },
            Message::UnlinkSlots(sl1, sl2) => {
                let v = vec![0xB8u8, sl1.slot(), sl2.slot()];
                proof {
                    assert(v@ =~= self.spec_body());
                }
                v
            },
            Message::ConsistFunc(slot, dirf) => {
                let v = vec![0xB6u8, slot.slot(), dirf.dirf()];
                proof {
                    assert(v@ =~= self.spec_body());
                }
                v
            },
            Message::SlotStat1(slot, stat1) => {
                let v = vec![0xB5u8, slot.slot(), stat1.stat1()];
                proof {
                    assert(v@ =~= self.spec_body());
                }
                v
            },
            Message::LongAck(lopc, ack1) => {
                let v = vec![0xB4u8, lopc.lopc(), ack1.ack1()];
                proof {
                    assert(v@ =~= self.spec_body());
                }
                v
            },
            Message::InputRep(input) => {
                let v = vec![0xB2u8, input.in1(), input.in2()];
                proof {
                    assert(v@ =~= self.spec_body());
                }
                v
            },
            Message::SwRep(sn_arg) => {
                let v = vec![0xB1u8, sn_arg.sn1(), sn_arg.sn2()];
                proof {
                    assert(v@ =~= self.spec_body());
                }
                v
            },
            Message::SwReq(sw) => {
                let v = vec![0xB0u8, sw.sw1(), sw.sw2()];
                proof {
                    assert(v@ =~= self.spec_body());
                }
                v
            },
            Message::LocoSnd(slot, snd) => {
                let v = vec![0xA2u8, slot.slot(), snd.snd()];
                proof {
                    assert(v@ =~= self.spec_body());
                }
                v
            },
            Message::LocoDirf(slot, dirf) => {
                let v = vec![0xA1u8, slot.slot(), dirf.dirf()];
                proof {
                    assert(v@ =~= self.spec_body());
                }
                v
            },
            Message::LocoSpd(slot, spd) => {
                let v = vec![0xA0u8, slot.slot(), spd.spd()];
                proof {
                    assert(v@ =~= self.spec_body());
                }
                v
            },
            Message::MultiSense(multi_sense, address) => {
                let v = vec![
                    0xD0u8,
                    multi_sense.m_high(),
                    multi_sense.zas(),
                    address.adr2(),
                    address.adr1(),
                ];
                proof {
                    assert(v@ =~= self.spec_body());
                }
                v
            },
            Message::UhliFun(slot, function) => {
                let v = vec![0xD4u8, 0x20u8, slot.slot(), function.group(), function.function()];
                proof {
                    assert(v@ =~= self.spec_body());
                }
                v
            },
            Message::WrSlData(wr_slot_data_arg) => wr_slot_data_arg.to_message(),
            Message::SlRdData(slot, stat1, adr, spd, dirf, trk, stat2, snd, id) => {
                let v = vec![
                    0xE7u8,
                    0x0Eu8,
                    slot.slot(),
                    stat1.stat1(),
                    adr.adr1(),
                    spd.spd(),
                    dirf.dirf(),
                    trk.trk_arg(),
                    stat2.stat2(),
                    adr.adr2(),
                    snd.snd(),
                    id.id1(),
                    id.id2(),
                ];
                proof {
                    assert(v@ =~= self.spec_body());
                }
                v
            },
            Message::ProgrammingAborted(args) => args.to_message(),
            Message::ImmPacket(im) => {
                let v = vec![
                    0xEDu8,
                    0x0Bu8,
                    0x7Fu8,
                    im.reps(),
                    im.dhi(),
                    im.im1(),
                    im.im2(),
                    im.im3(),
                    im.im4(),
                    im.im5(),
                ];
                proof {
                    assert(v@ =~= self.spec_body());
                }
                v
            },
            Message::Rep(rep) => match rep {
                RepStructure::RFID7Report(report) => report.to_message(),
                RepStructure::RFID5Report(report) => report.to_message(),
                RepStructure::LissyIrReport(report) => report.to_message(),
                RepStructure::WheelcntReport(report) => report.to_message(),
            },
            Message::PeerXfer(src, dst, pxct) => {
                let v = vec![
                    0xE5u8,
                    0x10u8,
                    src.slot(),
                    dst.dst_low(),
                    dst.dst_high(),
                    pxct.pxct1(),
                    pxct.d1(),
                    pxct.d2(),
                    pxct.d3(),
                    pxct.d4(),
                    pxct.pxct2(),
                    pxct.d5(),
                    pxct.d6(),
                    pxct.d7(),
                    pxct.d8(),
                ];
                proof {
                    assert(v@ =~= self.spec_body());
                }
                v
            },
        };

        let chk = Self::check_sum(message.as_slice());
        message.push(chk);

        message
    }

    /// The opcode byte of this message.
    pub fn opc(&self) -> (r: u8)
        ensures
            r == self.spec_opc(),
    {
        match *self {
            Message::Idle => 0x85,
            Message::GpOn => 0x83,
            Message::GpOff => 0x82,
            Message::Busy => 0x81,
            Message::LocoAdr(..) => 0xBF,
            Message::SwAck(..) => 0xBD,
            Message::SwState(..) => 0xBC,
            Message::RqSlData(..) => 0xBB,
            Message::MoveSlots(..) => 0xBA,
            Message::LinkSlots(..) => 0xB9,
            Message::UnlinkSlots(..) => 0xB8,
            Message::ConsistFunc(..) => 0xB6,
            Message::SlotStat1(..) => 0xB5,
            Message::LongAck(..) => 0xB4,
            Message::InputRep(..) => 0xB2,
            Message::SwRep(..) => 0xB1,
            Message::SwReq(..) => 0xB0,
            Message::LocoSnd(..) => 0xA2,
            Message::LocoDirf(..) => 0xA1,
            Message::LocoSpd(..) => 0xA0,
            Message::MultiSense(..) => 0xD0,
            Message::UhliFun(..) => 0xD4,
            Message::WrSlData(..) => 0xEF,
            Message::SlRdData(..) => 0xE7,
            Message::ProgrammingAborted(..) => 0xE6,
            Message::PeerXfer(..) => 0xE5,
            Message::Rep(..) => 0xE4,
            Message::ImmPacket(..) => 0xED,
        }
    }

    /// Whether the bus confirms acceptance of this message with a later long
    /// acknowledgment or slot-data response: true exactly for the
    /// loco-address request, the three switch requests, the slot write and
    /// the immediate packet.
    pub open spec fn spec_answer_follows(self) -> bool {
        match self {
            Message::LocoAdr(..) => true,
            Message::SwAck(..) => true,
            Message::SwState(..) => true,
            Message::SwReq(..) => true,
            Message::WrSlData(..) => true,
            Message::ImmPacket(..) => true,
            _ => false,
        }
    }

    /// Whether the bus confirms acceptance of this message with a later long
    /// acknowledgment or slot-data response.
    pub fn answer_follows(&self) -> (r: bool)
        ensures
            r == self.spec_answer_follows(),
    {
        matches!(
            self,
            Message::LocoAdr(..)
            | Message::SwAck(..)
            | Message::SwState(..)
            | Message::SwReq(..)
            | Message::WrSlData(..)
            | Message::ImmPacket(..)
        )
    }

    /// Whether a slot-data response rather than a long acknowledgment
    /// completes this message.
    pub open spec fn spec_await_slot_data(self) -> bool {
        match self {
            Message::LocoAdr(..) => true,
            Message::RqSlData(..) => true,
            Message::MoveSlots(..) => true,
            Message::LinkSlots(..) => true,
            Message::UnlinkSlots(..) => true,
            _ => false,
        }
    }

    /// Whether a slot-data response rather than a long acknowledgment
    /// completes this message.
    pub fn await_slot_data(&self) -> (r: bool)
        ensures
            r == self.spec_await_slot_data(),
    {
        matches!(
            self,
            Message::LocoAdr(..)
            | Message::RqSlData(..)
            | Message::MoveSlots(..)
            | Message::LinkSlots(..)
            | Message::UnlinkSlots(..)
        )
    }
}

impl Message {
    /// The message of a two-byte frame, selected by its opcode; the second
    /// byte is the checksum, so the opcode decides alone.
    pub open spec fn spec_parse2(opc: u8) -> Result<Message, ParseFault> {
        if opc == 0x85 {
            Ok(Message::Idle)
        } else if opc == 0x83 {
            Ok(Message::GpOn)
        } else if opc == 0x82 {
            Ok(Message::GpOff)
        } else if opc == 0x81 {
            Ok(Message::Busy)
        } else {
            Err(ParseFault::UnknownOpcode(opc))
        }
    }

    /// The message of a four-byte frame, decoded from its opcode and its two
    /// payload bytes.
    pub open spec fn spec_parse4(opc: u8, a1: u8, a2: u8) -> Result<Message, ParseFault> {
        if opc == 0xBF {
            Ok(Message::LocoAdr(AddressArg::spec_parse(a1, a2)))
        } else if opc == 0xBD {
            Ok(Message::SwAck(SwitchArg::spec_parse(a1, a2)))
        } else if opc == 0xBC {
            Ok(Message::SwState(SwitchArg::spec_parse(a1, a2)))
        } else if opc == 0xBB {
            Ok(Message::RqSlData(SlotArg::spec_parse(a1)))
        } else if opc == 0xBA {
            Ok(Message::MoveSlots(SlotArg::spec_parse(a1), SlotArg::spec_parse(a2)))
        } else if opc == 0xB9 {
            Ok(Message::LinkSlots(SlotArg::spec_parse(a1), SlotArg::spec_parse(a2)))
        } else if opc == 0xB8 {
            Ok(Message::UnlinkSlots(SlotArg::spec_parse(a1), SlotArg::spec_parse(a2)))
        } else if opc == 0xB6 {
            Ok(Message::ConsistFunc(SlotArg::spec_parse(a1), DirfArg::spec_parse(a2)))
        } else if opc == 0xB5 {
            match Stat1Arg::spec_parse(a2) {
                None => Err(ParseFault::InvalidFormat),
                Some(stat1) => Ok(Message::SlotStat1(SlotArg::spec_parse(a1), stat1)),
            }
        } else if opc == 0xB4 {
            Ok(Message::LongAck(LopcArg::spec_parse(a1), Ack1Arg(a2)))
        } else if opc == 0xB2 {
            Ok(Message::InputRep(InArg::spec_parse(a1, a2)))
        } else if opc == 0xB1 {
            Ok(Message::SwRep(SnArg::spec_parse(a1, a2)))
        } else if opc == 0xB0 {
            Ok(Message::SwReq(SwitchArg::spec_parse(a1, a2)))
        } else if opc == 0xA2 {
            Ok(Message::LocoSnd(SlotArg::spec_parse(a1), SndArg::spec_parse(a2)))
        } else if opc == 0xA1 {
            Ok(Message::LocoDirf(SlotArg::spec_parse(a1), DirfArg::spec_parse(a2)))
        } else if opc == 0xA0 {
            Ok(Message::LocoSpd(SlotArg::spec_parse(a1), SpeedArg::spec_parse(a2)))
        } else {
            Err(ParseFault::UnknownOpcode(opc))
        }
    }

    /// The message of a six-byte frame, decoded from its opcode and its four
    /// payload bytes.
    pub open spec fn spec_parse6(opc: u8, a1: u8, a2: u8, a3: u8, a4: u8) -> Result<Message,
        ParseFault> {
        if opc == 0xD0 {
            Ok(
                Message::MultiSense(
                    MultiSenseArg::spec_parse(a1, a2),
                    AddressArg::spec_parse(a3, a4),
                ),
            )
        } else if opc == 0xD4 {
            if a1 != 0x20 {
                Err(ParseFault::InvalidFormat)
            } else {
                Ok(Message::UhliFun(SlotArg::spec_parse(a2), FunctionArg(a3, a4)))
            }
        } else {
            Err(ParseFault::UnknownOpcode(opc))
        }
    }

    /// The message of a variable-length frame, decoded from its opcode and
    /// the payload bytes between the opcode and the checksum; the first of
    /// them is the declared frame length.
    pub open spec fn spec_parse_var(opc: u8, args: Seq<u8>) -> Result<Message, ParseFault> {
        if opc == 0xED {
            if args.len() < 9 {
                Err(ParseFault::UnexpectedEnd(opc))
            } else if args[1] != 0x7F {
                Err(ParseFault::InvalidFormat)
            } else {
                Ok(
                    Message::ImmPacket(
                        ImArg::spec_parse(
                            args[1],
                            args[2],
                            args[3],
                            args[4],
                            args[5],
                            args[6],
                            args[7],
                            args[8],
                        ),
                    ),
                )
            }
        } else if opc == 0xEF {
            if args.len() < 12 {
                Err(ParseFault::UnexpectedEnd(opc))
            } else {
                match WrSlDataStructure::spec_parse(
                    args[1],
                    args[2],
                    args[3],
                    args[4],
                    args[5],
                    args[6],
                    args[7],
                    args[8],
                    args[9],
                    args[10],
                    args[11],
                ) {
                    Ok(w) => Ok(Message::WrSlData(w)),
                    Err(f) => Err(f),
                }
            }
        } else if opc == 0xE7 {
            if args.len() < 12 {
                Err(ParseFault::UnexpectedEnd(opc))
            } else {
                match Stat1Arg::spec_parse(args[2]) {
                    None => Err(ParseFault::InvalidFormat),
                    Some(stat1) => Ok(
                        Message::SlRdData(
                            SlotArg::spec_parse(args[1]),
                            stat1,
                            AddressArg::spec_parse(args[8], args[3]),
                            SpeedArg::spec_parse(args[4]),
                            DirfArg::spec_parse(args[5]),
                            TrkArg::spec_parse(args[6]),
                            Stat2Arg::spec_parse(args[7]),
                            SndArg::spec_parse(args[9]),
                            IdArg::spec_parse(args[10], args[11]),
                        ),
                    ),
                }
            }
        } else if opc == 0xE6 {
            Ok(
                Message::ProgrammingAborted(
                    ProgrammingAbortedArg::spec_parse(args[0], args.subrange(1, args.len() as int)),
                ),
            )
        } else if opc == 0xE4 {
            if args.len() < 2 {
                Err(ParseFault::UnexpectedEnd(opc))
            } else {
                match RepStructure::spec_parse(args[0], args.subrange(1, args.len() as int)) {
                    Ok(rep) => Ok(Message::Rep(rep)),
                    Err(f) => Err(f),
                }
            }
        } else if opc == 0xE5 {
            if args.len() < 14 {
                Err(ParseFault::UnexpectedEnd(opc))
            } else {
                Ok(
                    Message::PeerXfer(
                        SlotArg::spec_parse(args[1]),
                        DstArg::spec_parse(args[2], args[3]),
                        PxctData::spec_parse(
                            args[4],
                            args[5],
                            args[6],
                            args[7],
                            args[8],
                            args[9],
                            args[10],
                            args[11],
                            args[12],
                            args[13],
                        ),
                    ),
                )
            }
        } else {
            Err(ParseFault::UnknownOpcode(opc))
        }
    }

    /// The message of a frame whose whole length `len` is already known:
    /// the frame must hold all `len` bytes and fold to `0xFF`, and its
    /// payload is then decoded by the parser of its length.
    pub open spec fn spec_parse_sized(buf: Seq<u8>, len: int) -> Result<Message, ParseFault> {
        let opc = buf[0];
        if buf.len() < len {
            Err(ParseFault::UnexpectedEnd(opc))
        } else if fold_xor(buf.subrange(0, len)) != 0xFF {
            Err(ParseFault::InvalidChecksum)
        } else if len == 2 {
            Self::spec_parse2(opc)
        } else if len == 4 {
            Self::spec_parse4(opc, buf[1], buf[2])
        } else if len == 6 {
            Self::spec_parse6(opc, buf[1], buf[2], buf[3], buf[4])
        } else {
            Self::spec_parse_var(opc, buf.subrange(1, len - 1))
        }
    }

    /// The message decoded from a byte sequence that starts with a frame:
    /// the whole behaviour of `parse`.
    pub open spec fn spec_parse(buf: Seq<u8>) -> Result<Message, ParseFault>
        recommends
            buf.len() >= 1,
    {
        let opc = buf[0];
        match spec_length_class(opc) {
            LengthClass::Unknown => Err(ParseFault::UnknownOpcode(opc)),
            LengthClass::Fixed(n) => Self::spec_parse_sized(buf, n as int),
            LengthClass::Variable => {
                if buf.len() < 2 {
                    Err(ParseFault::UnexpectedEnd(opc))
                } else if buf[1] < 2 {
                    Err(ParseFault::UnexpectedEnd(opc))
                } else {
                    Self::spec_parse_sized(buf, buf[1] as int)
                }
            },
        }
    }

    /// Decodes the messages of two-byte frames.
    fn parse2(opc: u8) -> (r: Result<Self, MessageParseError>)
        ensures
            crate::error::parse_result_matches(r, Self::spec_parse2(opc)),
    {
        match opc {
            0x85 => Ok(Self::Idle),
            0x83 => Ok(Self::GpOn),
            0x82 => Ok(Self::GpOff),
            0x81 => Ok(Self::Busy),
            _ => Err(MessageParseError::UnknownOpcode(opc)),
        }
    }

    /// Decodes the messages of four-byte frames from the opcode and the two
    /// payload bytes.
    fn parse4(opc: u8, a1: u8, a2: u8) -> (r: Result<Self, MessageParseError>)
        ensures
            crate::error::parse_result_matches(r, Self::spec_parse4(opc, a1, a2)),
    {
        match opc {
            0xBF => Ok(Self::LocoAdr(AddressArg::parse(a1, a2))),
            0xBD => Ok(Self::SwAck(SwitchArg::parse(a1, a2))),
            0xBC => Ok(Self::SwState(SwitchArg::parse(a1, a2))),
            0xBB => Ok(Self::RqSlData(SlotArg::parse(a1))),
            0xBA => Ok(Self::MoveSlots(SlotArg::parse(a1), SlotArg::parse(a2))),
            0xB9 => Ok(Self::LinkSlots(SlotArg::parse(a1), SlotArg::parse(a2))),
            0xB8 => Ok(Self::UnlinkSlots(SlotArg::parse(a1), SlotArg::parse(a2))),
            0xB6 => Ok(Self::ConsistFunc(SlotArg::parse(a1), DirfArg::parse(a2))),
            0xB5 => match Stat1Arg::parse(a2) {
                None => Err(
                    MessageParseError::InvalidFormat(
                        "the slot status carries a decoder type with no defined mapping".to_owned(),
                    ),
                ),
                Some(stat1) => Ok(Self::SlotStat1(SlotArg::parse(a1), stat1)),
            },
            0xB4 => Ok(Self::LongAck(LopcArg::parse(a1), Ack1Arg::parse(a2))),
            0xB2 => Ok(Self::InputRep(InArg::parse(a1, a2))),
            0xB1 => Ok(Self::SwRep(SnArg::parse(a1, a2))),
            0xB0 => Ok(Self::SwReq(SwitchArg::parse(a1, a2))),
            0xA2 => Ok(Self::LocoSnd(SlotArg::parse(a1), SndArg::parse(a2))),
            0xA1 => Ok(Self::LocoDirf(SlotArg::parse(a1), DirfArg::parse(a2))),
            0xA0 => Ok(Self::LocoSpd(SlotArg::parse(a1), SpeedArg::parse(a2))),
            _ => Err(MessageParseError::UnknownOpcode(opc)),
        }
    }

    /// Decodes the messages of six-byte frames from the opcode and the four
    /// payload bytes.
    fn parse6(opc: u8, a1: u8, a2: u8, a3: u8, a4: u8) -> (r: Result<Self, MessageParseError>)
        ensures
            crate::error::parse_result_matches(r, Self::spec_parse6(opc, a1, a2, a3, a4)),
    {
        match opc {
            0xD0 => Ok(Self::MultiSense(MultiSenseArg::parse(a1, a2), AddressArg::parse(a3, a4))),
            0xD4 => {
                if a1 != 0x20 {
                    return Err(
                        MessageParseError::InvalidFormat(
                            "the first payload byte of a slot-function frame must be 0x20".to_owned(),
                        ),
                    );
                }
                Ok(Self::UhliFun(SlotArg::parse(a2), FunctionArg::parse(a3, a4)))
            },
            _ => Err(MessageParseError::UnknownOpcode(opc)),
        }
    }

    /// Decodes the messages of variable-length frames from the opcode and
    /// the payload bytes between the opcode and the checksum.
    fn parse_var(opc: u8, args: &[u8]) -> (r: Result<Self, MessageParseError>)
        requires
            args@.len() >= 1,
            args@[0] == args@.len() + 2,
        ensures
            crate::error::parse_result_matches(r, Self::spec_parse_var(opc, args@)),
    {
        if opc == 0xED {
            if args.len() < 9 {
                return Err(MessageParseError::UnexpectedEnd(opc));
            }
            if args[1] != 0x7F {
                return Err(
                    MessageParseError::InvalidFormat(
                        "the check byte of an immediate packet must be 0x7F".to_owned(),
                    ),
                );
            }
            Ok(
                Self::ImmPacket(
                    ImArg::parse(
                        args[1],
                        args[2],
                        args[3],
                        args[4],
                        args[5],
                        args[6],
                        args[7],
                        args[8],
                    ),
                ),
            )
        } else if opc == 0xEF {
            if args.len() < 12 {
                return Err(MessageParseError::UnexpectedEnd(opc));
            }
            match WrSlDataStructure::parse(
                args[1],
                args[2],
                args[3],
                args[4],
                args[5],
                args[6],
                args[7],
                args[8],
                args[9],
                args[10],
                args[11],
            ) {
                Ok(w) => Ok(Self::WrSlData(w)),
                Err(err) => Err(err),
            }
        } else if opc == 0xE7 {
            if args.len() < 12 {
                return Err(MessageParseError::UnexpectedEnd(opc));
            }
            match Stat1Arg::parse(args[2]) {
                None => Err(
                    MessageParseError::InvalidFormat(
                        "the slot status carries a decoder type with no defined mapping".to_owned(),
                    ),
                ),
                Some(stat1) => Ok(
                    Self::SlRdData(
                        SlotArg::parse(args[1]),
                        stat1,
                        AddressArg::parse(args[8], args[3]),
                        SpeedArg::parse(args[4]),
                        DirfArg::parse(args[5]),
                        TrkArg::parse(args[6]),
                        Stat2Arg::parse(args[7]),
                        SndArg::parse(args[9]),
                        IdArg::parse(args[10], args[11]),
                    ),
                ),
            }
        } else if opc == 0xE6 {
            Ok(
                Self::ProgrammingAborted(
                    ProgrammingAbortedArg::parse(args[0], &args[1..args.len()]),
                ),
            )
        } else if opc == 0xE4 {
            if args.len() < 2 {
                return Err(MessageParseError::UnexpectedEnd(opc));
            }
            match RepStructure::parse(args[0], &args[1..args.len()]) {
                Ok(rep) => Ok(Self::Rep(rep)),
                Err(err) => Err(err),
            }
        } else if opc == 0xE5 {
            if args.len() < 14 {
                return Err(MessageParseError::UnexpectedEnd(opc));
            }
            Ok(
                Self::PeerXfer(
                    SlotArg::parse(args[1]),
                    DstArg::parse(args[2], args[3]),
                    PxctData::parse(
                        args[4],
                        args[5],
                        args[6],
                        args[7],
                        args[8],
                        args[9],
                        args[10],
                        args[11],
                        args[12],
                        args[13],
                    ),
                ),
            )
        } else {
            Err(MessageParseError::UnknownOpcode(opc))
        }
    }

    /// Decodes one message from `buf`, which must hold at least the opcode
    /// byte.
    ///
    /// The opcode class fixes the frame length (the second byte declares it
    /// for the variable class); an unrecognised class is an
    /// [`MessageParseError::UnknownOpcode`]. A buffer shorter than the
    /// declared length is an [`MessageParseError::UnexpectedEnd`] carrying
    /// the opcode. A frame whose XOR-fold is not `0xFF` is an
    /// [`MessageParseError::InvalidChecksum`]. A known frame whose fixed
    /// bytes or sub-format selectors hold undefined values is an
    /// [`MessageParseError::InvalidFormat`]. Anything else decodes to the
    /// message [`Message::spec_parse`] assigns to the frame.
    pub fn parse(buf: &[u8]) -> (r: Result<Self, MessageParseError>)
        requires
            buf@.len() >= 1,
        ensures
            crate::error::parse_result_matches(r, Self::spec_parse(buf@)),
    {
        let opc = buf[0];
        let len: usize = match length_class(opc) {
            LengthClass::Fixed(n) => n as usize,
            LengthClass::Variable => {
                if buf.len() < 2 {
                    return Err(MessageParseError::UnexpectedEnd(opc));
                }
                let declared = buf[1] as usize;
                if declared < 2 {
                    return Err(MessageParseError::UnexpectedEnd(opc));
                }
                declared
            },
            LengthClass::Unknown => {
                return Err(MessageParseError::UnknownOpcode(opc));
            },
        };

        if buf.len() < len {
            return Err(MessageParseError::UnexpectedEnd(opc));
        }

        if !Self::validate(&buf[0..len]) {
            return Err(MessageParseError::InvalidChecksum);
        }

        if len == 2 {
            Self::parse2(opc)
        } else if len == 4 {
            Self::parse4(opc, buf[1], buf[2])
        } else if len == 6 {
            Self::parse6(opc, buf[1], buf[2], buf[3], buf[4])
        } else {
            Self::parse_var(opc, &buf[1..len - 1])
        }
    }
}

/// The whole-frame length that a buffer declares: the fixed length of the
/// opcode class, or the second byte for the variable class. `None` when the
/// opcode is unknown or the declared length cannot be read or frame anything.
pub open spec fn spec_declared_len(buf: Seq<u8>) -> Option<int>
    recommends
        buf.len() >= 1,
{
    match spec_length_class(buf[0]) {
        LengthClass::Fixed(n) => Some(n as int),
        LengthClass::Variable => if buf.len() >= 2 && buf[1] >= 2 {
            Some(buf[1] as int)
        } else {
            None
        },
        LengthClass::Unknown => None,
    }
}

/// The opcode constants of the catalog fall into the length classes the
/// protocol assigns them: the two-byte, four-byte, six-byte and variable
/// classes by the three most significant bits.
proof fn lemma_opcode_class_facts()
    ensures
        0x85u8 & 0xE0 == 0x80,
        0x83u8 & 0xE0 == 0x80,
        0x82u8 & 0xE0 == 0x80,
        0x81u8 & 0xE0 == 0x80,
        0xBFu8 & 0xE0 == 0xA0,
        0xBDu8 & 0xE0 == 0xA0,
        0xBCu8 & 0xE0 == 0xA0,
        0xBBu8 & 0xE0 == 0xA0,
        0xBAu8 & 0xE0 == 0xA0,
        0xB9u8 & 0xE0 == 0xA0,
        0xB8u8 & 0xE0 == 0xA0,
        0xB6u8 & 0xE0 == 0xA0,
        0xB5u8 & 0xE0 == 0xA0,
        0xB4u8 & 0xE0 == 0xA0,
        0xB2u8 & 0xE0 == 0xA0,
        0xB1u8 & 0xE0 == 0xA0,
        0xB0u8 & 0xE0 == 0xA0,
        0xA2u8 & 0xE0 == 0xA0,
        0xA1u8 & 0xE0 == 0xA0,
        0xA0u8 & 0xE0 == 0xA0,
        0xD0u8 & 0xE0 == 0xC0,
        0xD4u8 & 0xE0 == 0xC0,
        0xEFu8 & 0xE0 == 0xE0,
        0xE7u8 & 0xE0 == 0xE0,
        0xE6u8 & 0xE0 == 0xE0,
        0xE5u8 & 0xE0 == 0xE0,
        0xE4u8 & 0xE0 == 0xE0,
        0xEDu8 & 0xE0 == 0xE0,
{
    assert(0x85u8 & 0xE0 == 0x80 && 0x83u8 & 0xE0 == 0x80 && 0x82u8 & 0xE0 == 0x80 && 0x81u8 & 0xE0
        == 0x80 && 0xBFu8 & 0xE0 == 0xA0 && 0xBDu8 & 0xE0 == 0xA0 && 0xBCu8 & 0xE0 == 0xA0 && 0xBBu8
        & 0xE0 == 0xA0 && 0xBAu8 & 0xE0 == 0xA0 && 0xB9u8 & 0xE0 == 0xA0 && 0xB8u8 & 0xE0 == 0xA0
        && 0xB6u8 & 0xE0 == 0xA0 && 0xB5u8 & 0xE0 == 0xA0 && 0xB4u8 & 0xE0 == 0xA0 && 0xB2u8 & 0xE0
        == 0xA0 && 0xB1u8 & 0xE0 == 0xA0 && 0xB0u8 & 0xE0 == 0xA0 && 0xA2u8 & 0xE0 == 0xA0 && 0xA1u8
        & 0xE0 == 0xA0 && 0xA0u8 & 0xE0 == 0xA0 && 0xD0u8 & 0xE0 == 0xC0 && 0xD4u8 & 0xE0 == 0xC0
        && 0xEFu8 & 0xE0 == 0xE0 && 0xE7u8 & 0xE0 == 0xE0 && 0xE6u8 & 0xE0 == 0xE0 && 0xE5u8 & 0xE0
        == 0xE0 && 0xE4u8 & 0xE0 == 0xE0 && 0xEDu8 & 0xE0 == 0xE0) by (bit_vector);
}

/// The checksum law, first half: every frame `to_wire` produces folds to
/// `0xFF`, for every message, wire-legal or not.
pub proof fn lemma_to_wire_checksum(m: Message)
    ensures
        fold_xor(m.spec_to_wire()) == 0xFF,
{
    lemma_wire_checksum(m.spec_body());
}

/// Decoding the frame of a message whose opcode class is fixed reaches the
/// parser of that length, with the payload bytes of the frame.
proof fn lemma_parse_of_own_frame_fixed(m: Message, n: u8)
    requires
        m.spec_body().len() + 1 == n,
        m.spec_body()[0] == m.spec_opc(),
        spec_length_class(m.spec_opc()) == LengthClass::Fixed(n),
        n == 2 || n == 4 || n == 6,
    ensures
        n == 2 ==> Message::spec_parse(m.spec_to_wire()) == Message::spec_parse2(m.spec_opc()),
        n == 4 ==> Message::spec_parse(m.spec_to_wire()) == Message::spec_parse4(
            m.spec_opc(),
            m.spec_body()[1],
            m.spec_body()[2],
        ),
        n == 6 ==> Message::spec_parse(m.spec_to_wire()) == Message::spec_parse6(
            m.spec_opc(),
            m.spec_body()[1],
            m.spec_body()[2],
            m.spec_body()[3],
            m.spec_body()[4],
        ),
{
    let wire = m.spec_to_wire();
    lemma_wire_checksum(m.spec_body());
    assert(wire.subrange(0, wire.len() as int) =~= wire);
}

/// Decoding the frame of a message whose second body byte declares the frame
/// length reaches the variable-length parser, with the payload bytes between
/// the opcode and the checksum.
proof fn lemma_parse_of_own_frame_var(m: Message)
    requires
        m.spec_body().len() >= 6,
        m.spec_body()[0] == m.spec_opc(),
        m.spec_opc() & 0xE0 == 0xE0,
        m.spec_body()[1] as int == m.spec_body().len() + 1,
    ensures
        Message::spec_parse(m.spec_to_wire()) == Message::spec_parse_var(
            m.spec_opc(),
            m.spec_to_wire().subrange(1, m.spec_body().len() as int),
        ),
{
    let body = m.spec_body();
    let wire = m.spec_to_wire();
    lemma_wire_checksum(body);
    assert(wire.subrange(0, wire.len() as int) =~= wire);
}

/// The round-trip core for the two-byte messages.
proof fn lemma_roundtrip_len2(m: Message)
    requires
        m.wf(),
    ensures
        (m matches Message::Idle || m matches Message::GpOn || m matches Message::GpOff || m matches
            Message::Busy) ==> Message::spec_parse(m.spec_to_wire()) == Ok::<Message, ParseFault>(m),
{
    lemma_opcode_class_facts();
    match m {
        Message::Idle => lemma_parse_of_own_frame_fixed(m, 2),
        Message::GpOn => lemma_parse_of_own_frame_fixed(m, 2),
        Message::GpOff => lemma_parse_of_own_frame_fixed(m, 2),
        Message::Busy => lemma_parse_of_own_frame_fixed(m, 2),
        _ => {},
    }
}

/// The round-trip core for the first half of the four-byte messages.
#[verifier::rlimit(100)]
proof fn lemma_roundtrip_len4_a(m: Message)
    requires
        m.wf(),
    ensures
        (m matches Message::LocoAdr(..) || m matches Message::SwAck(..) || m matches
            Message::SwState(..) || m matches Message::RqSlData(..) || m matches
            Message::MoveSlots(..) || m matches Message::LinkSlots(..) || m matches
            Message::UnlinkSlots(..) || m matches Message::ConsistFunc(..))
            ==> Message::spec_parse(m.spec_to_wire()) == Ok::<Message, ParseFault>(m),
{
    lemma_opcode_class_facts();
    match m {
        Message::LocoAdr(adr) => {
            lemma_parse_of_own_frame_fixed(m, 4);
            crate::args::lemma_address_roundtrip(adr);
        },
        Message::SwAck(sw) => {
            lemma_parse_of_own_frame_fixed(m, 4);
            crate::args::lemma_switch_roundtrip(sw);
        },
        Message::SwState(sw) => {
            lemma_parse_of_own_frame_fixed(m, 4);
            crate::args::lemma_switch_roundtrip(sw);
        },
        Message::RqSlData(slot) => {
            lemma_parse_of_own_frame_fixed(m, 4);
            crate::args::lemma_slot_roundtrip(slot);
        },
        Message::MoveSlots(src, dst) => {
            lemma_parse_of_own_frame_fixed(m, 4);
            crate::args::lemma_slot_roundtrip(src);
            crate::args::lemma_slot_roundtrip(dst);
        },
        Message::LinkSlots(sl1, sl2) => {
            lemma_parse_of_own_frame_fixed(m, 4);
            crate::args::lemma_slot_roundtrip(sl1);
            crate::args::lemma_slot_roundtrip(sl2);
        },
        Message::UnlinkSlots(sl1, sl2) => {
            lemma_parse_of_own_frame_fixed(m, 4);
            crate::args::lemma_slot_roundtrip(sl1);
            crate::args::lemma_slot_roundtrip(sl2);
        },
        Message::ConsistFunc(slot, dirf) => {
            lemma_parse_of_own_frame_fixed(m, 4);
            crate::args::lemma_slot_roundtrip(slot);
            crate::args::lemma_dirf_roundtrip(dirf);
        },
        _ => {},
    }
}

/// The round-trip core for the second half of the four-byte messages.
#[verifier::rlimit(100)]
proof fn lemma_roundtrip_len4_b(m: Message)
    requires
        m.wf(),
    ensures
        (m matches Message::SlotStat1(..) || m matches Message::LongAck(..) || m matches
            Message::InputRep(..) || m matches Message::SwRep(..) || m matches Message::SwReq(..)
            || m matches Message::LocoSnd(..) || m matches Message::LocoDirf(..) || m matches
            Message::LocoSpd(..)) ==> Message::spec_parse(m.spec_to_wire()) == Ok::<Message,
            ParseFault>(m),
{
    lemma_opcode_class_facts();
    match m {
        Message::SlotStat1(slot, stat1) => {
            lemma_parse_of_own_frame_fixed(m, 4);
            crate::args::lemma_slot_roundtrip(slot);
            crate::args::lemma_stat1_roundtrip(stat1);
        },
        Message::LongAck(lopc, ack1) => {
            lemma_parse_of_own_frame_fixed(m, 4);
            crate::args::lemma_lopc_roundtrip(lopc);
        },
        Message::InputRep(input) => {
            lemma_parse_of_own_frame_fixed(m, 4);
            crate::args::lemma_in_roundtrip(input);
        },
        Message::SwRep(sn) => {
            lemma_parse_of_own_frame_fixed(m, 4);
            crate::args::lemma_sn_roundtrip(sn);
        },
        Message::SwReq(sw) => {
            lemma_parse_of_own_frame_fixed(m, 4);
            crate::args::lemma_switch_roundtrip(sw);
        },
        Message::LocoSnd(slot, snd) => {
            lemma_parse_of_own_frame_fixed(m, 4);
            crate::args::lemma_slot_roundtrip(slot);
            crate::args::lemma_snd_roundtrip(snd);
        },
        Message::LocoDirf(slot, dirf) => {
            lemma_parse_of_own_frame_fixed(m, 4);
            crate::args::lemma_slot_roundtrip(slot);
            crate::args::lemma_dirf_roundtrip(dirf);
        },
        Message::LocoSpd(slot, spd) => {
            lemma_parse_of_own_frame_fixed(m, 4);
            crate::args::lemma_slot_roundtrip(slot);
            crate::args::lemma_speed_roundtrip(spd);
        },
        _ => {},
    }
}

/// The round-trip core for the six-byte messages.
proof fn lemma_roundtrip_len6(m: Message)
    requires
        m.wf(),
    ensures
        (m matches Message::MultiSense(..) || m matches Message::UhliFun(..))
            ==> Message::spec_parse(m.spec_to_wire()) == Ok::<Message, ParseFault>(m),
{
    lemma_opcode_class_facts();
    match m {
        Message::MultiSense(ms, adr) => {
            lemma_parse_of_own_frame_fixed(m, 6);
            crate::args::lemma_multi_sense_roundtrip(ms);
            crate::args::lemma_address_roundtrip(adr);
        },
        Message::UhliFun(slot, function) => {
            lemma_parse_of_own_frame_fixed(m, 6);
            crate::args::lemma_slot_roundtrip(slot);
        },
        _ => {},
    }
}

/// The round-trip core for the slot-data response.
#[verifier::rlimit(100)]
proof fn lemma_roundtrip_sl_rd(m: Message)
    requires
        m.wf(),
    ensures
        m matches Message::SlRdData(..) ==> Message::spec_parse(m.spec_to_wire()) == Ok::<Message,
            ParseFault>(m),
{
    lemma_opcode_class_facts();
    match m {
        Message::SlRdData(slot, stat1, adr, spd, dirf, trk, stat2, snd, id) => {
            lemma_parse_of_own_frame_var(m);
            crate::args::lemma_slot_roundtrip(slot);
            crate::args::lemma_stat1_roundtrip(stat1);
            crate::args::lemma_address_roundtrip(adr);
            crate::args::lemma_speed_roundtrip(spd);
            crate::args::lemma_dirf_roundtrip(dirf);
            crate::args::lemma_trk_roundtrip(trk);
            crate::args::lemma_stat2_roundtrip(stat2);
            crate::args::lemma_snd_roundtrip(snd);
            crate::args::lemma_id_roundtrip(id);
        },
        _ => {},
    }
}

/// The round-trip core for the immediate packet.
#[verifier::rlimit(100)]
proof fn lemma_roundtrip_imm(m: Message)
    requires
        m.wf(),
    ensures
        m matches Message::ImmPacket(..) ==> Message::spec_parse(m.spec_to_wire()) == Ok::<Message,
            ParseFault>(m),
{
    lemma_opcode_class_facts();
    match m {
        Message::ImmPacket(im) => {
            lemma_parse_of_own_frame_var(m);
            crate::args::lemma_im_roundtrip(im);
        },
        _ => {},
    }
}

/// The round-trip core for the peer transfer.
#[verifier::rlimit(100)]
proof fn lemma_roundtrip_peer(m: Message)
    requires
        m.wf(),
    ensures
        m matches Message::PeerXfer(..) ==> Message::spec_parse(m.spec_to_wire()) == Ok::<Message,
            ParseFault>(m),
{
    lemma_opcode_class_facts();
    match m {
        Message::PeerXfer(src, dst, pxct) => {
            lemma_parse_of_own_frame_var(m);
            crate::args::lemma_slot_roundtrip(src);
            crate::args::lemma_dst_roundtrip(dst);
            crate::args::lemma_pxct_roundtrip(pxct);
        },
        _ => {},
    }
}

/// The round-trip core for the slot-write message.
#[verifier::rlimit(100)]
proof fn lemma_roundtrip_wr_sl(m: Message)
    requires
        m.wf(),
    ensures
        m matches Message::WrSlData(..) ==> Message::spec_parse(m.spec_to_wire()) == Ok::<Message,
            ParseFault>(m),
{
    lemma_opcode_class_facts();
    match m {
        Message::WrSlData(w) => {
            lemma_parse_of_own_frame_var(m);
            crate::args::lemma_wr_sl_data_roundtrip(w);
            let body = m.spec_body();
            let args = m.spec_to_wire().subrange(1, body.len() as int);
            let b = w.spec_to_message();
            assert(args[1] == b[2] && args[2] == b[3] && args[3] == b[4] && args[4] == b[5]
                && args[5] == b[6] && args[6] == b[7] && args[7] == b[8] && args[8] == b[9]
                && args[9] == b[10] && args[10] == b[11] && args[11] == b[12]);
        },
        _ => {},
    }
}

/// The round-trip core for the service-mode-abort message.
#[verifier::rlimit(100)]
proof fn lemma_roundtrip_prog_aborted(m: Message)
    requires
        m.wf(),
    ensures
        m matches Message::ProgrammingAborted(..) ==> Message::spec_parse(m.spec_to_wire())
            == Ok::<Message, ParseFault>(m),
{
    lemma_opcode_class_facts();
    match m {
        Message::ProgrammingAborted(p) => {
            lemma_parse_of_own_frame_var(m);
            let body = m.spec_body();
            let args = m.spec_to_wire().subrange(1, body.len() as int);
            let inner = args.subrange(1, args.len() as int);
            if p.arg_len == 0x10 {
                assert(inner =~= body.subrange(2, 15));
            } else {
                assert(inner =~= body.subrange(2, 20));
            }
        },
        _ => {},
    }
}

/// The round-trip core for the detector-report message.
#[verifier::rlimit(100)]
proof fn lemma_roundtrip_rep(m: Message)
    requires
        m.wf(),
    ensures
        m matches Message::Rep(..) ==> Message::spec_parse(m.spec_to_wire()) == Ok::<Message,
            ParseFault>(m),
{
    lemma_opcode_class_facts();
    match m {
        Message::Rep(rep) => {
            lemma_parse_of_own_frame_var(m);
            let body = m.spec_body();
            let args = m.spec_to_wire().subrange(1, body.len() as int);
            let inner = args.subrange(1, args.len() as int);
            match rep {
                RepStructure::LissyIrReport(report) => {
                    crate::args::lemma_lissy_roundtrip(report);
                    assert(inner =~= body.subrange(2, 7));
                },
                RepStructure::WheelcntReport(report) => {
                    crate::args::lemma_wheelcnt_roundtrip(report);
                    assert(inner =~= body.subrange(2, 7));
                },
                RepStructure::RFID5Report(report) => {
                    crate::args::lemma_rfid5_roundtrip(report);
                    assert(inner =~= body.subrange(2, 11));
                },
                RepStructure::RFID7Report(report) => {
                    crate::args::lemma_rfid7_roundtrip(report);
                    assert(inner =~= body.subrange(2, 13));
                },
            }
        },
        _ => {},
    }
}

/// The round-trip law: every wire-legal message decodes from its own frame,
/// and to itself.
pub proof fn lemma_message_roundtrip(m: Message)
    requires
        m.wf(),
    ensures
        Message::spec_parse(m.spec_to_wire()) == Ok::<Message, ParseFault>(m),
{
    lemma_roundtrip_len2(m);
    lemma_roundtrip_len4_a(m);
    lemma_roundtrip_len4_b(m);
    lemma_roundtrip_len6(m);
    lemma_roundtrip_sl_rd(m);
    lemma_roundtrip_imm(m);
    lemma_roundtrip_peer(m);
    lemma_roundtrip_wr_sl(m);
    lemma_roundtrip_prog_aborted(m);
    lemma_roundtrip_rep(m);
}

/// The length-dispatch law, first half: decoding looks only at the bytes of
/// the declared frame, so any bytes after it change nothing.
pub proof fn lemma_parse_reads_declared_prefix(buf: Seq<u8>, n: int)
    requires
        buf.len() >= 1,
        spec_declared_len(buf) == Some(n),
        n <= buf.len(),
    ensures
        Message::spec_parse(buf.subrange(0, n)) == Message::spec_parse(buf),
{
    let pre = buf.subrange(0, n);
    assert(pre[0] == buf[0]);
    assert(pre.subrange(0, n) =~= buf.subrange(0, n));
    if n >= 3 {
        assert(pre.subrange(1, n - 1) =~= buf.subrange(1, n - 1));
    }
}

/// The length-dispatch law, second half: a buffer shorter than the frame
/// length its opcode declares decodes to nothing but the truncation error,
/// which carries the opcode.
pub proof fn lemma_short_frame_rejected(buf: Seq<u8>, n: int)
    requires
        buf.len() >= 1,
        spec_declared_len(buf) == Some(n),
        buf.len() < n,
    ensures
        Message::spec_parse(buf) == Err::<Message, ParseFault>(ParseFault::UnexpectedEnd(buf[0])),
{
}

/// Every encoded frame declares exactly its own length: the opcode of the
/// frame body selects the class the catalog assigns it, and for the variable
/// class the second byte holds the whole frame length.
#[verifier::rlimit(100)]
proof fn lemma_wire_framing(m: Message)
    ensures
        m.spec_to_wire().len() >= 2,
        spec_declared_len(m.spec_to_wire()) == Some(m.spec_to_wire().len() as int),
{
    lemma_opcode_class_facts();
    match m {
        Message::WrSlData(..) => {
            assert(m.spec_body()[1] == 0x0E);
        },
        Message::ProgrammingAborted(p) => {
            if p.arg_len == 0x10 {
                assert(m.spec_body()[1] == 0x10);
            } else {
                assert(m.spec_body()[1] == 0x15);
            }
        },
        Message::Rep(rep) => {
            match rep {
                RepStructure::LissyIrReport(..) => {
                    assert(m.spec_body()[1] == 0x08);
                },
                RepStructure::WheelcntReport(..) => {
                    assert(m.spec_body()[1] == 0x08);
                },
                RepStructure::RFID5Report(..) => {
                    assert(m.spec_body()[1] == 0x0C);
                },
                RepStructure::RFID7Report(..) => {
                    assert(m.spec_body()[1] == 0x0E);
                },
            }
        },
        _ => {},
    }
}

/// The checksum law for encoded frames: corrupting any payload or checksum
/// byte of a frame `to_wire` produced (any byte but the opcode and, in the
/// variable class, the length byte, which steer the framing itself) makes
/// decoding fail with the checksum error.
pub proof fn lemma_corrupted_payload_rejected(m: Message, i: int, b: u8)
    requires
        2 <= i < m.spec_to_wire().len(),
        b != m.spec_to_wire()[i],
    ensures
        Message::spec_parse(m.spec_to_wire().update(i, b)) == Err::<Message, ParseFault>(
            ParseFault::InvalidChecksum,
        ),
{
    let wire = m.spec_to_wire();
    let t = wire.update(i, b);
    lemma_wire_framing(m);
    lemma_to_wire_checksum(m);
    assert(t[0] == wire[0] && t[1] == wire[1]);
    lemma_corrupted_frame_rejected(wire, i, b);
}

/// The checksum law, second half: changing any single byte of a valid frame
/// makes decoding fail with the checksum error, as long as the change leaves
/// the framing itself intact (a corrupted opcode or length byte is caught
/// earlier, as an unknown opcode or a truncated frame).
pub proof fn lemma_corrupted_frame_rejected(buf: Seq<u8>, i: int, b: u8)
    requires
        buf.len() >= 1,
        fold_xor(buf) == 0xFF,
        0 <= i < buf.len(),
        b != buf[i],
        spec_declared_len(buf.update(i, b)) == Some(buf.len() as int),
    ensures
        Message::spec_parse(buf.update(i, b)) == Err::<Message, ParseFault>(
            ParseFault::InvalidChecksum,
        ),
{
    let t = buf.update(i, b);
    lemma_fold_xor_corrupt(buf, i, b);
    assert(t.subrange(0, t.len() as int) =~= t);
}

} // verus!
