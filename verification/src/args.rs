use vstd::prelude::*;

verus! {

/// A locomotive address of up to fourteen bits, split into two 7-bit bytes
/// (low, high) on the wire.
#[derive(Debug, Copy, Clone, PartialEq, Eq, Hash, Structural)]
pub struct AddressArg(pub u16);

impl AddressArg {
    /// An address is wire-legal when it fits in the fourteen bits the two
    /// 7-bit wire bytes can carry.
    pub open spec fn wf(self) -> bool {
        self.0 < 0x4000
    }

    /// The seven least significant address bits, as written to the wire.
    pub open spec fn spec_adr1(self) -> u8 {
        (self.0 & 0x007F) as u8
    }

    /// The seven most significant address bits, as written to the wire.
    pub open spec fn spec_adr2(self) -> u8 {
        ((self.0 >> 7) & 0x007F) as u8
    }

    /// The address decoded from its two wire bytes.
    pub open spec fn spec_parse(adr2: u8, adr: u8) -> AddressArg {
        AddressArg((adr as u16) | ((adr2 as u16) << 7))
    }

    /// Creates a new address. Values of `0x4000` and above cannot be
    /// represented on the wire and are truncated by `to_wire`.
    pub fn new(adr: u16) -> (r: Self)
        ensures
            r.0 == adr,
    {
        Self(adr)
    }

    /// Decodes an address from its two wire bytes (`adr2` high, `adr` low).
    pub(crate) fn parse(adr2: u8, adr: u8) -> (r: Self)
        ensures
            r == Self::spec_parse(adr2, adr),
    {
        let mut address = adr as u16;
        address |= (adr2 as u16) << 7;
        Self(address)
    }

    /// The address held by this arg.
    pub fn address(&self) -> (r: u16)
        ensures
            r == self.0,
    {
        self.0
    }

    /// Replaces the address held by this arg.
    pub fn set_address(&mut self, address: u16)
        ensures
            final(self).0 == address,
    {
        self.0 = address;
    }

    /// The seven least significant address bits.
    pub(crate) fn adr1(&self) -> (r: u8)
        ensures
            r == self.spec_adr1(),
    {
        (self.0 & 0x007F) as u8
    }

    /// The seven most significant address bits.
    pub(crate) fn adr2(&self) -> (r: u8)
        ensures
            r == self.spec_adr2(),
    {
        ((self.0 >> 7) & 0x007F) as u8
    }
}

/// A wire-legal address survives the trip onto the wire and back.
pub proof fn lemma_address_roundtrip(a: AddressArg)
    requires
        a.wf(),
    ensures
        AddressArg::spec_parse(a.spec_adr2(), a.spec_adr1()) == a,
{
    let v = a.0;
    assert(((((v & 0x007F) as u8) as u16) | (((((v >> 7) & 0x007F) as u8) as u16) << 7)) == v)
        by (bit_vector)
        requires
            v < 0x4000,
    ;
}

/// The direction a switch points to.
#[derive(Debug, Copy, Clone, PartialEq, Eq, Hash, Structural)]
pub enum SwitchDirection {
    Straight,
    Curved,
}

/// Switch state information to be read or written.
#[derive(Debug, Copy, Clone, PartialEq, Eq, Hash, Structural)]
pub struct SwitchArg {
    /// The address of the switch (up to eleven bits).
    pub address: u16,
    /// The direction the switch points to.
    pub direction: SwitchDirection,
    /// The activation state of the switch.
    pub state: bool,
}

impl SwitchArg {
    /// A switch address is wire-legal when it fits in the eleven bits the
    /// wire encoding carries (seven low bits, four high bits).
    pub open spec fn wf(self) -> bool {
        self.address < 0x0800
    }

    /// The seven least significant address bits, as written to the wire.
    pub open spec fn spec_sw1(self) -> u8 {
        (self.address & 0x007F) as u8
    }

    /// The four most significant address bits combined with the direction
    /// and activation bits, as written to the wire.
    pub open spec fn spec_sw2(self) -> u8 {
        let with_dir = (((self.address >> 7) & 0x000F) as u8) | (match self.direction {
            SwitchDirection::Curved => 0x00u8,
            SwitchDirection::Straight => 0x20u8,
        });
        if self.state {
            with_dir | 0x10
        } else {
            with_dir
        }
    }

    /// The switch state decoded from its two wire bytes.
    pub open spec fn spec_parse(sw1: u8, sw2: u8) -> SwitchArg {
        SwitchArg {
            address: (sw1 as u16) | (((sw2 & 0x0F) as u16) << 7),
            direction: if sw2 & 0x20 == 0 {
                SwitchDirection::Curved
            } else {
                SwitchDirection::Straight
            },
            state: (sw2 & 0x10) != 0,
        }
    }

    /// Creates a new switch information block.
    pub fn new(address: u16, direction: SwitchDirection, state: bool) -> (r: Self)
        ensures
            r == (SwitchArg { address, direction, state }),
    {
        Self { address, direction, state }
    }

    /// Decodes the switch state from its two wire bytes.
    pub(crate) fn parse(sw1: u8, sw2: u8) -> (r: Self)
        ensures
            r == Self::spec_parse(sw1, sw2),
    {
        let mut address = sw1 as u16;
        address |= ((sw2 & 0x0F) as u16) << 7;

        let direction = if sw2 & 0x20 == 0 {
            SwitchDirection::Curved
        } else {
            SwitchDirection::Straight
        };

        let state = (sw2 & 0x10) != 0;
        Self { address, direction, state }
    }

    /// The address of the switch.
    pub fn address(&self) -> (r: u16)
        ensures
            r == self.address,
    {
        self.address
    }

    /// The direction the switch points to.
    pub fn direction(&self) -> (r: SwitchDirection)
        ensures
            r == self.direction,
    {
        self.direction
    }

    /// The activation state of the switch.
    pub fn state(&self) -> (r: bool)
        ensures
            r == self.state,
    {
        self.state
    }

    /// Replaces the address of the switch.
    pub fn set_address(&mut self, address: u16)
        ensures
            *final(self) == (SwitchArg { address, ..*old(self) }),
    {
        self.address = address;
    }

    /// Replaces the direction of the switch.
    pub fn set_direction(&mut self, direction: SwitchDirection)
        ensures
            *final(self) == (SwitchArg { direction, ..*old(self) }),
    {
        self.direction = direction;
    }

    /// Replaces the activation state of the switch.
    pub fn set_state(&mut self, state: bool)
        ensures
            *final(self) == (SwitchArg { state, ..*old(self) }),
    {
        self.state = state;
    }

    /// The seven least significant address bits.
    pub(crate) fn sw1(&self) -> (r: u8)
        ensures
            r == self.spec_sw1(),
    {
        (self.address & 0x007F) as u8
    }

    /// The four most significant address bits combined with the direction
    /// and activation bits.
    pub(crate) fn sw2(&self) -> (r: u8)
        ensures
            r == self.spec_sw2(),
    {
        let mut sw2 = ((self.address >> 7) & 0x000F) as u8;

        sw2 |= match self.direction {
            SwitchDirection::Curved => 0x00,
            SwitchDirection::Straight => 0x20,
        };

        if self.state {
            sw2 |= 0x10;
        }

        sw2
    }
}

/// A wire-legal switch state survives the trip onto the wire and back.
pub proof fn lemma_switch_roundtrip(s: SwitchArg)
    requires
        s.wf(),
    ensures
        SwitchArg::spec_parse(s.spec_sw1(), s.spec_sw2()) == s,
{
    let v = s.address;
    let db: u8 = match s.direction {
        SwitchDirection::Curved => 0x00,
        SwitchDirection::Straight => 0x20,
    };
    let sb: u8 = if s.state { 0x10 } else { 0x00 };
    let a: u8 = (((v >> 7) & 0x000F) as u8) | db;
    let s2: u8 = s.spec_sw2();
    assert((((v & 0x007F) as u8) as u16 | (((s2 & 0x0F) as u16) << 7)) == v && ((s2 & 0x20
        == 0) <==> (db == 0)) && (((s2 & 0x10) != 0) <==> (sb == 0x10))) by (bit_vector)
        requires
            v < 0x0800,
            db == 0x20 || db == 0x00,
            a == (((v >> 7) & 0x000F) as u8) | db,
            (sb == 0x00 && s2 == a) || (sb == 0x10 && s2 == a | 0x10),
    ;
}

/// One slot address of a command station, between 0 and 127.
///
/// Slot 0 (dispatch) and slots 120 to 127 (system control, among them 123 the
/// fast clock, 124 the programming track and 127 the command-station options)
/// are reserved and carry special semantics.
#[derive(Debug, Copy, Clone, PartialEq, Eq, Hash, Structural)]
pub struct SlotArg(pub u8);

impl SlotArg {
    /// A slot number fits in seven bits; all constructors mask it so.
    pub open spec fn wf(self) -> bool {
        self.0 < 0x80
    }

    /// The slot number decoded from its wire byte.
    pub open spec fn spec_parse(slot: u8) -> SlotArg {
        SlotArg(slot & 0x7F)
    }

    /// Creates a new slot address; the value is masked to its seven low bits.
    pub fn new(slot: u8) -> (r: Self)
        ensures
            r.0 == slot & 0x7F,
            r.wf(),
    {
        let s = slot & 0x7F;
        proof {
            assert(slot & 0x7F < 0x80) by (bit_vector);
        }
        Self(s)
    }

    /// Decodes the slot number from its wire byte.
    pub(crate) fn parse(slot: u8) -> (r: Self)
        ensures
            r == Self::spec_parse(slot),
            r.wf(),
    {
        Self::new(slot)
    }

    /// The slot number held by this arg.
    pub fn slot(&self) -> (r: u8)
        ensures
            r == self.0,
    {
        self.0
    }
}

/// A slot number survives the trip onto the wire and back.
pub proof fn lemma_slot_roundtrip(s: SlotArg)
    requires
        s.wf(),
    ensures
        SlotArg::spec_parse(s.0) == s,
{
    let v = s.0;
    assert(v & 0x7F == v) by (bit_vector)
        requires
            v < 0x80,
    ;
}

/// The speed commanded for one slot.
#[derive(Debug, Copy, Clone, PartialEq, Eq, Hash, Structural)]
pub enum SpeedArg {
    /// A normal stop: the train may brake smoothly.
    Stop,
    /// An immediate stop.
    EmergencyStop,
    /// A running speed. The largest representable speed is 126.
    Drive(u8),
}

impl SpeedArg {
    /// A speed is wire-legal when its drive value, shifted by one for the two
    /// stop codes, still fits in the seven wire bits: between 1 and 126.
    pub open spec fn wf(self) -> bool {
        match self {
            SpeedArg::Drive(spd) => 1 <= spd <= 126,
            _ => true,
        }
    }

    /// The wire byte: 0 is stop, 1 is emergency stop, and a drive speed `n`
    /// is written as `n + 1`.
    pub open spec fn spec_spd(self) -> u8 {
        match self {
            SpeedArg::Stop => 0x00u8,
            SpeedArg::EmergencyStop => 0x01u8,
            SpeedArg::Drive(spd) => spd.wrapping_add(1) & 0x7F,
        }
    }

    /// The speed decoded from its wire byte.
    pub open spec fn spec_parse(spd: u8) -> SpeedArg {
        if spd == 0x00 {
            SpeedArg::Stop
        } else if spd == 0x01 {
            SpeedArg::EmergencyStop
        } else {
            SpeedArg::Drive((spd - 1) as u8)
        }
    }

    /// Creates a new speed: 0 is a stop, any other value drives at that speed.
    pub fn new(spd: u8) -> (r: Self)
        ensures
            r == if spd == 0 { SpeedArg::Stop } else { SpeedArg::Drive(spd) },
    {
        match spd {
            0x00 => Self::Stop,
            _ => Self::Drive(spd),
        }
    }

    /// Decodes the speed from its wire byte.
    pub(crate) fn parse(spd: u8) -> (r: Self)
        ensures
            r == Self::spec_parse(spd),
    {
        match spd {
            0x00 => Self::Stop,
            0x01 => Self::EmergencyStop,
            _ => Self::Drive(spd - 1),
        }
    }

    /// The wire byte of this speed.
    pub(crate) fn spd(&self) -> (r: u8)
        ensures
            r == self.spec_spd(),
    {
        match *self {
            SpeedArg::Stop => 0x00,
            SpeedArg::EmergencyStop => 0x01,
            SpeedArg::Drive(spd) => spd.wrapping_add(1) & 0x7F,
        }
    }

    /// The plain numeric speed: both stop codes read as 0.
    pub fn get_spd(&self) -> (r: u8)
        ensures
            r == match *self {
                SpeedArg::Stop => 0u8,
                SpeedArg::EmergencyStop => 0u8,
                SpeedArg::Drive(spd) => spd,
            },
    {
        match *self {
            SpeedArg::Stop => 0x00,
            SpeedArg::EmergencyStop => 0x00,
            SpeedArg::Drive(spd) => spd,
        }
    }
}

/// A wire-legal speed survives the trip onto the wire and back.
pub proof fn lemma_speed_roundtrip(s: SpeedArg)
    requires
        s.wf(),
    ensures
        SpeedArg::spec_parse(s.spec_spd()) == s,
{
    match s {
        SpeedArg::Drive(spd) => {
            let w = spd.wrapping_add(1);
            assert(w == spd + 1);
            assert(2 <= w & 0x7F && w & 0x7F == w) by (bit_vector)
                requires
                    2 <= w <= 127,
            ;
        },
        _ => {},
    }
}

/// The direction and first five function bits of a slot.
///
/// Function bit 0 usually controls the train light.
#[derive(Debug, Copy, Clone, PartialEq, Eq, Hash, Structural)]
pub struct DirfArg(pub u8);

impl DirfArg {
    /// The encoded byte uses only the six low bits.
    pub open spec fn wf(self) -> bool {
        self.0 < 0x40
    }

    /// The direction and function bits decoded from their wire byte.
    pub open spec fn spec_parse(dirf: u8) -> DirfArg {
        DirfArg(dirf & 0x3F)
    }

    /// The bit mask of function flag `f_num` within the encoded byte.
    pub open spec fn spec_f_mask(f_num: u8) -> u8 {
        if f_num == 0 {
            0x10u8
        } else {
            (1u8 << ((f_num - 1) as u8)) as u8
        }
    }

    /// The value of function flag `f_num`; flags above 4 always read false.
    pub open spec fn spec_f(self, f_num: u8) -> bool {
        if f_num <= 4 {
            (self.0 >> (if f_num == 0 { 4u8 } else { (f_num - 1) as u8 })) & 1 != 0
        } else {
            false
        }
    }

    /// The byte built from the direction and the five function flags, bit by
    /// bit in the order the flags are applied.
    pub open spec fn spec_dirf_bits(dir: bool, f0: bool, f1: bool, f2: bool, f3: bool, f4: bool) -> u8 {
        let a = if dir { 0x20u8 } else { 0x00u8 };
        let b = if f0 { a | 0x10 } else { a };
        let c = if f1 { b | 0x01 } else { b };
        let d = if f2 { c | 0x02 } else { c };
        let e = if f3 { d | 0x04 } else { d };
        if f4 { e | 0x08 } else { e }
    }

    /// Creates a new arg from the direction and the five function flags.
    pub fn new(dir: bool, f0: bool, f1: bool, f2: bool, f3: bool, f4: bool) -> (r: Self)
        ensures
            r.0 == Self::spec_dirf_bits(dir, f0, f1, f2, f3, f4),
    {
        let mut dirf: u8 = if dir { 0x20 } else { 0x00 };
        if f0 {
            dirf |= 0x10
        }
        if f1 {
            dirf |= 0x01
        }
        if f2 {
            dirf |= 0x02
        }
        if f3 {
            dirf |= 0x04
        }
        if f4 {
            dirf |= 0x08
        }
        Self(dirf)
    }

    /// Decodes the direction and function bits from their wire byte.
    pub(crate) fn parse(dirf: u8) -> (r: Self)
        ensures
            r == Self::spec_parse(dirf),
            r.wf(),
    {
        proof {
            assert(dirf & 0x3F < 0x40) by (bit_vector);
        }
        Self(dirf & 0x3F)
    }

    /// The direction: `true` means forward, `false` backward.
    pub fn dir(&self) -> (r: bool)
        ensures
            r == (self.0 & 0x20 != 0),
    {
        self.0 & 0x20 != 0
    }

    /// The value of function flag `f_num`; only flags 0 to 4 are held here,
    /// any other flag reads false.
    pub fn f(&self, f_num: u8) -> (r: bool)
        ensures
            r == self.spec_f(f_num),
    {
        if f_num <= 4 {
            self.0 >> (if f_num == 0 { 4 } else { f_num - 1 }) & 1 != 0
        } else {
            false
        }
    }

    /// Sets the direction to the requested value.
    pub fn set_dir(&mut self, value: bool)
        ensures
            final(self).0 == if value {
                old(self).0 | 0x20
            } else {
                old(self).0 & !0x20
            },
    {
        if value {
            self.0 |= 0x20;
        } else {
            self.0 &= !0x20
        }
    }

    /// Sets function flag `f_num`; flags above 4 are ignored.
    pub fn set_f(&mut self, f_num: u8, value: bool)
        ensures
            final(self).0 == if f_num <= 4 {
                if value {
                    old(self).0 | Self::spec_f_mask(f_num)
                } else {
                    old(self).0 & !Self::spec_f_mask(f_num)
                }
            } else {
                old(self).0
            },
    {
        if f_num <= 4 {
            let mask: u8 = 1 << if f_num == 0 { 4 } else { f_num - 1 };
            proof {
                assert(f_num == 0 ==> (1u8 << 4u8) == 0x10u8) by (bit_vector);
            }
            if value {
                self.0 |= mask;
            } else {
                self.0 &= !mask;
            }
        }
    }

    /// The encoded wire byte.
    pub(crate) fn dirf(&self) -> (r: u8)
        ensures
            r == self.0,
    {
        self.0
    }
}

/// A wire-legal direction-and-functions byte survives the trip onto the wire
/// and back.
pub proof fn lemma_dirf_roundtrip(d: DirfArg)
    requires
        d.wf(),
    ensures
        DirfArg::spec_parse(d.0) == d,
{
    let v = d.0;
    assert(v & 0x3F == v) by (bit_vector)
        requires
            v < 0x40,
    ;
}

/// The track status of the whole layout.
#[derive(Debug, Copy, Clone, PartialEq, Eq, Hash, Structural)]
pub struct TrkArg {
    /// The track power state.
    pub power: bool,
    /// The track idle state.
    pub idle: bool,
    /// `true`: the master implements this protocol; `false`: a legacy master.
    pub mlok1: bool,
    /// Whether the programming track of the master is busy.
    pub prog_busy: bool,
}

impl TrkArg {
    /// The encoded track status byte, built bit by bit in the order the
    /// flags are applied.
    pub open spec fn spec_trk_arg(self) -> u8 {
        let a = if self.power { 0x01u8 } else { 0x00u8 };
        let b = if !self.idle { a | 0x02 } else { a };
        let c = if self.mlok1 { b | 0x04 } else { b };
        if self.prog_busy { c | 0x08 } else { c }
    }

    /// The track status decoded from its wire byte.
    pub open spec fn spec_parse(trk_arg: u8) -> TrkArg {
        TrkArg {
            power: trk_arg & 0x01 == 0x01,
            idle: trk_arg & 0x02 == 0x00,
            mlok1: trk_arg & 0x04 == 0x04,
            prog_busy: trk_arg & 0x08 == 0x08,
        }
    }

    /// Creates a new track status.
    pub fn new(power: bool, idle: bool, mlok1: bool, prog_busy: bool) -> (r: Self)
        ensures
            r == (TrkArg { power, idle, mlok1, prog_busy }),
    {
        TrkArg { power, idle, mlok1, prog_busy }
    }

    /// Decodes the track status from its wire byte.
    pub(crate) fn parse(trk_arg: u8) -> (r: Self)
        ensures
            r == Self::spec_parse(trk_arg),
    {
        let power = trk_arg & 0x01 == 0x01;
        let idle = trk_arg & 0x02 == 0x00;
        let mlok1 = trk_arg & 0x04 == 0x04;
        let prog_busy = trk_arg & 0x08 == 0x08;
        TrkArg { power, idle, mlok1, prog_busy }
    }

    /// The track power state.
    pub fn power_on(&self) -> (r: bool)
        ensures
            r == self.power,
    {
        self.power
    }

    /// The track idle state.
    pub fn track_idle(&self) -> (r: bool)
        ensures
            r == self.idle,
    {
        self.idle
    }

    /// The protocol version of the master.
    pub fn mlok1(&self) -> (r: bool)
        ensures
            r == self.mlok1,
    {
        self.mlok1
    }

    /// The busy status of the programming track.
    pub fn prog_busy(&self) -> (r: bool)
        ensures
            r == self.prog_busy,
    {
        self.prog_busy
    }

    /// The encoded track status byte.
    pub(crate) fn trk_arg(&self) -> (r: u8)
        ensures
            r == self.spec_trk_arg(),
    {
        let mut trk_arg: u8 = if self.power { 0x01 } else { 0x00 };
        if !self.idle {
            trk_arg |= 0x02;
        }
        if self.mlok1 {
            trk_arg |= 0x04;
        }
        if self.prog_busy {
            trk_arg |= 0x08;
        }
        trk_arg
    }
}

/// A track status survives the trip onto the wire and back.
pub proof fn lemma_trk_roundtrip(t: TrkArg)
    ensures
        TrkArg::spec_parse(t.spec_trk_arg()) == t,
{
    let a: u8 = if t.power { 0x01 } else { 0x00 };
    let b: u8 = if !t.idle { a | 0x02 } else { a };
    let c: u8 = if t.mlok1 { b | 0x04 } else { b };
    let v: u8 = t.spec_trk_arg();
    assert(((v & 0x01 == 0x01) <==> a == 0x01) && ((v & 0x02 == 0x00) <==> b == a) && ((v & 0x04
        == 0x04) <==> c == b | 0x04) && ((v & 0x08 == 0x08) <==> v == c | 0x08) && a | 0x02 != a
        && b | 0x04 != b && c | 0x08 != c) by (bit_vector)
        requires
            a == 0x01 || a == 0x00,
            b == a || b == a | 0x02,
            c == b || c == b | 0x04,
            v == c || v == c | 0x08,
    ;
}

/// The function flags 5 to 8 of a slot, often used for sound control.
#[derive(Debug, Copy, Clone, PartialEq, Eq, Hash, Structural)]
pub struct SndArg(pub u8);

impl SndArg {
    /// The encoded byte uses only the four low bits.
    pub open spec fn wf(self) -> bool {
        self.0 < 0x10
    }

    /// The sound flags decoded from their wire byte.
    pub open spec fn spec_parse(snd: u8) -> SndArg {
        SndArg(snd & 0x0F)
    }

    /// The value of function flag `f_num`; only flags 5 to 8 are held here.
    pub open spec fn spec_f(self, f_num: u8) -> bool {
        if 5 <= f_num <= 8 {
            self.0 & (1u8 << ((f_num - 5) as u8)) != 0
        } else {
            false
        }
    }

    /// The byte built from the four sound function flags, bit by bit in the
    /// order the flags are applied.
    pub open spec fn spec_snd_bits(f5: bool, f6: bool, f7: bool, f8: bool) -> u8 {
        let a = if f5 { 0x01u8 } else { 0x00u8 };
        let b = if f6 { a | 0x02 } else { a };
        let c = if f7 { b | 0x04 } else { b };
        if f8 { c | 0x08 } else { c }
    }

    /// Creates a new arg from the four sound function flags.
    pub fn new(f5: bool, f6: bool, f7: bool, f8: bool) -> (r: Self)
        ensures
            r.0 == Self::spec_snd_bits(f5, f6, f7, f8),
    {
        let mut snd: u8 = if f5 { 0x01 } else { 0x00 };
        if f6 {
            snd |= 0x02
        }
        if f7 {
            snd |= 0x04
        }
        if f8 {
            snd |= 0x08
        }
        Self(snd)
    }

    /// Decodes the sound flags from their wire byte.
    pub(crate) fn parse(snd: u8) -> (r: Self)
        ensures
            r == Self::spec_parse(snd),
            r.wf(),
    {
        proof {
            assert(snd & 0x0F < 0x10) by (bit_vector);
        }
        Self(snd & 0x0F)
    }

    /// The value of function flag `f_num`; only flags 5 to 8 are held here,
    /// any other flag reads false.
    pub fn f(&self, f_num: u8) -> (r: bool)
        ensures
            r == self.spec_f(f_num),
    {
        if 5 <= f_num && f_num <= 8 {
            self.0 & (1 << (f_num - 5)) != 0
        } else {
            false
        }
    }

    /// Sets function flag `f_num`; flags outside 5 to 8 are ignored.
    pub fn set_f(&mut self, f_num: u8, value: bool)
        ensures
            final(self).0 == if 5 <= f_num <= 8 {
                if value {
                    old(self).0 | (1u8 << ((f_num - 5) as u8))
                } else {
                    old(self).0 & !(1u8 << ((f_num - 5) as u8))
                }
            } else {
                old(self).0
            },
    {
        if 5 <= f_num && f_num <= 8 {
            let mask: u8 = 1 << (f_num - 5);
            if value {
                self.0 |= mask;
            } else {
                self.0 &= !mask;
            }
        }
    }

    /// The encoded wire byte.
    pub(crate) fn snd(&self) -> (r: u8)
        ensures
            r == self.0,
    {
        self.0
    }
}

/// A wire-legal sound-functions byte survives the trip onto the wire and back.
pub proof fn lemma_snd_roundtrip(s: SndArg)
    requires
        s.wf(),
    ensures
        SndArg::spec_parse(s.0) == s,
{
    let v = s.0;
    assert(v & 0x0F == v) by (bit_vector)
        requires
            v < 0x10,
    ;
}

/// The link status of a slot.
#[derive(Debug, Copy, Clone, PartialEq, Eq, Hash, Structural)]
pub enum Consist {
    /// The slot is linked up and down.
    LogicalMid,
    /// The slot is only linked down.
    LogicalTop,
    /// The slot is only linked up.
    LogicalSubMember,
    /// The slot is not linked.
    Free,
}

/// The usage status of a slot.
#[derive(Debug, Copy, Clone, PartialEq, Eq, Hash, Structural)]
pub enum State {
    /// The slot is in use by some device and refreshed.
    InUse,
    /// The slot holds a loco address but is not refreshed.
    Idle,
    /// The slot holds some loco address and is refreshed.
    Common,
    /// No valid data in the slot; the slot is not refreshed.
    Free,
}

/// The speed-control message format used by the decoder of a slot.
#[derive(Debug, Copy, Clone, PartialEq, Eq, Hash, Structural)]
pub enum DecoderType {
    /// 28-step decoder with advanced DCC allowed.
    Dcc28,
    /// 128-step decoder with advanced DCC allowed.
    Dcc128,
    /// 28-step mode in 3-byte packet regular mode.
    Regular28,
    /// 28-step mode generating trinary packets for a mobile address.
    AdrMobile28,
    /// 14-step speed mode.
    Step14,
    /// 128-step speed mode packets.
    Speed128,
}

/// The general status of a slot.
#[derive(Debug, Copy, Clone, PartialEq, Eq, Hash, Structural)]
pub struct Stat1Arg {
    /// The purge status of the slot.
    pub s_purge: bool,
    /// The link status of the slot.
    pub consist: Consist,
    /// The usage status of the slot.
    pub state: State,
    /// The decoder type used by the slot.
    pub decoder_type: DecoderType,
}

impl Stat1Arg {
    /// The encoded status byte, built from the purge bit, the link bits, the
    /// usage bits and the decoder bits.
    pub open spec fn spec_stat1(self) -> u8 {
        let a = if self.s_purge { 0x80u8 } else { 0x00u8 };
        let b = a | (match self.consist {
            Consist::LogicalMid => 0x48u8,
            Consist::LogicalTop => 0x08u8,
            Consist::LogicalSubMember => 0x40u8,
            Consist::Free => 0x00u8,
        });
        let c = b | (match self.state {
            State::InUse => 0x30u8,
            State::Idle => 0x20u8,
            State::Common => 0x10u8,
            State::Free => 0x00u8,
        });
        c | (match self.decoder_type {
            DecoderType::Dcc28 => 0x04u8,
            DecoderType::Dcc128 => 0x07u8,
            DecoderType::Regular28 => 0x00u8,
            DecoderType::AdrMobile28 => 0x01u8,
            DecoderType::Step14 => 0x02u8,
            DecoderType::Speed128 => 0x03u8,
        })
    }

    /// The slot status decoded from its wire byte. The decoder bit patterns
    /// `0x05` and `0x06` have no defined mapping, so decoding them fails.
    pub open spec fn spec_parse(stat1: u8) -> Option<Stat1Arg> {
        let d = stat1 & 0x07;
        if d == 0x05 || d == 0x06 {
            None
        } else {
            Some(
                Stat1Arg {
                    s_purge: stat1 & 0x80 != 0,
                    consist: {
                        let c = stat1 & 0x48;
                        if c == 0x48 {
                            Consist::LogicalMid
                        } else if c == 0x08 {
                            Consist::LogicalTop
                        } else if c == 0x40 {
                            Consist::LogicalSubMember
                        } else {
                            Consist::Free
                        }
                    },
                    state: {
                        let s = stat1 & 0x30;
                        if s == 0x30 {
                            State::InUse
                        } else if s == 0x20 {
                            State::Idle
                        } else if s == 0x10 {
                            State::Common
                        } else {
                            State::Free
                        }
                    },
                    decoder_type: if d == 0x02 {
                        DecoderType::Step14
                    } else if d == 0x01 {
                        DecoderType::AdrMobile28
                    } else if d == 0x00 {
                        DecoderType::Regular28
                    } else if d == 0x03 {
                        DecoderType::Speed128
                    } else if d == 0x07 {
                        DecoderType::Dcc128
                    } else {
                        DecoderType::Dcc28
                    },
                },
            )
        }
    }

    /// Creates a new slot status.
    pub fn new(s_purge: bool, consist: Consist, state: State, decoder_type: DecoderType) -> (r:
        Self)
        ensures
            r == (Stat1Arg { s_purge, consist, state, decoder_type }),
    {
        Stat1Arg { s_purge, consist, state, decoder_type }
    }

    /// Decodes the slot status from its wire byte; `None` when the decoder
    /// bit pattern has no defined mapping.
    pub(crate) fn parse(stat1: u8) -> (r: Option<Self>)
        ensures
            r == Self::spec_parse(stat1),
    {
        let d = stat1 & 0x07;
        if d == 0x05 || d == 0x06 {
            return None;
        }

        let s_purge = stat1 & 0x80 != 0;

        let c = stat1 & 0x48;
        let consist = if c == 0x48 {
            Consist::LogicalMid
        } else if c == 0x08 {
            Consist::LogicalTop
        } else if c == 0x40 {
            Consist::LogicalSubMember
        } else {
            Consist::Free
        };

        let s = stat1 & 0x30;
        let state = if s == 0x30 {
            State::InUse
        } else if s == 0x20 {
            State::Idle
        } else if s == 0x10 {
            State::Common
        } else {
            State::Free
        };

        let decoder_type = if d == 0x02 {
            DecoderType::Step14
        } else if d == 0x01 {
            DecoderType::AdrMobile28
        } else if d == 0x00 {
            DecoderType::Regular28
        } else if d == 0x03 {
            DecoderType::Speed128
        } else if d == 0x07 {
            DecoderType::Dcc128
        } else {
            DecoderType::Dcc28
        };

        Some(Stat1Arg { s_purge, consist, state, decoder_type })
    }

    /// The purge status of the slot.
    pub fn s_purge(&self) -> (r: bool)
        ensures
            r == self.s_purge,
    {
        self.s_purge
    }

    /// The link status of the slot.
    pub fn consist(&self) -> (r: Consist)
        ensures
            r == self.consist,
    {
        self.consist
    }

    /// The usage status of the slot.
    pub fn state(&self) -> (r: State)
        ensures
            r == self.state,
    {
        self.state
    }

    /// The decoder type used by the slot.
    pub fn decoder_type(&self) -> (r: DecoderType)
        ensures
            r == self.decoder_type,
    {
        self.decoder_type
    }

    /// The encoded status byte.
    pub(crate) fn stat1(&self) -> (r: u8)
        ensures
            r == self.spec_stat1(),
    {
        let stat1: u8 = if self.s_purge { 0x80 } else { 0x00 };

        let stat1 = stat1 | (match self.consist {
            Consist::LogicalMid => 0x48,
            Consist::LogicalTop => 0x08,
            Consist::LogicalSubMember => 0x40,
            Consist::Free => 0x00,
        });

        let stat1 = stat1 | (match self.state {
            State::InUse => 0x30,
            State::Idle => 0x20,
            State::Common => 0x10,
            State::Free => 0x00,
        });

        stat1 | (match self.decoder_type {
            DecoderType::Dcc28 => 0x04,
            DecoderType::Dcc128 => 0x07,
            DecoderType::Regular28 => 0x00,
            DecoderType::AdrMobile28 => 0x01,
            DecoderType::Step14 => 0x02,
            DecoderType::Speed128 => 0x03,
        })
    }
}

/// A slot status survives the trip onto the wire and back: its encoded byte
/// always decodes, and decodes to the same status.
pub proof fn lemma_stat1_roundtrip(t: Stat1Arg)
    ensures
        Stat1Arg::spec_parse(t.spec_stat1()) == Some(t),
{
    let a: u8 = if t.s_purge { 0x80 } else { 0x00 };
    let cb: u8 = match t.consist {
        Consist::LogicalMid => 0x48,
        Consist::LogicalTop => 0x08,
        Consist::LogicalSubMember => 0x40,
        Consist::Free => 0x00,
    };
    let sb: u8 = match t.state {
        State::InUse => 0x30,
        State::Idle => 0x20,
        State::Common => 0x10,
        State::Free => 0x00,
    };
    let db: u8 = match t.decoder_type {
        DecoderType::Dcc28 => 0x04,
        DecoderType::Dcc128 => 0x07,
        DecoderType::Regular28 => 0x00,
        DecoderType::AdrMobile28 => 0x01,
        DecoderType::Step14 => 0x02,
        DecoderType::Speed128 => 0x03,
    };
    let v: u8 = t.spec_stat1();
    assert((v & 0x80 != 0 <==> a == 0x80) && v & 0x48 == cb && v & 0x30 == sb && v & 0x07 == db)
        by (bit_vector)
        requires
            a == 0x80 || a == 0x00,
            cb == 0x48 || cb == 0x08 || cb == 0x40 || cb == 0x00,
            sb == 0x30 || sb == 0x20 || sb == 0x10 || sb == 0x00,
            db == 0x04 || db == 0x07 || db == 0x00 || db == 0x01 || db == 0x02 || db == 0x03,
            v == ((a | cb) | sb) | db,
    ;
}

/// Extension part of the slot status with additional slot information.
#[derive(Debug, Copy, Clone, PartialEq, Eq, Hash, Structural)]
pub struct Stat2Arg {
    /// Whether the advanced consist of the slot is suppressed.
    pub has_adv: bool,
    /// Whether the two id bytes are not used for an id.
    pub no_id_usage: bool,
    /// Whether the id is no encoded alias.
    pub id_encoded_alias: bool,
}

impl Stat2Arg {
    /// The encoded extension byte, built bit by bit in the order the flags
    /// are applied.
    pub open spec fn spec_stat2(self) -> u8 {
        let a = if self.has_adv { 0x01u8 } else { 0x00u8 };
        let b = if self.no_id_usage { a | 0x04 } else { a };
        if self.id_encoded_alias { b | 0x08 } else { b }
    }

    /// The extension status decoded from its wire byte.
    pub open spec fn spec_parse(stat2: u8) -> Stat2Arg {
        Stat2Arg {
            has_adv: stat2 & 0x01 != 0,
            no_id_usage: stat2 & 0x04 != 0,
            id_encoded_alias: stat2 & 0x08 != 0,
        }
    }

    /// Creates a new extension status.
    pub fn new(has_adv: bool, no_id_usage: bool, id_encoded_alias: bool) -> (r: Self)
        ensures
            r == (Stat2Arg { has_adv, no_id_usage, id_encoded_alias }),
    {
        Stat2Arg { has_adv, no_id_usage, id_encoded_alias }
    }

    /// Decodes the extension status from its wire byte.
    pub(crate) fn parse(stat2: u8) -> (r: Self)
        ensures
            r == Self::spec_parse(stat2),
    {
        let has_adv = stat2 & 0x01 != 0;
        let no_id_usage = stat2 & 0x04 != 0;
        let id_encoded_alias = stat2 & 0x08 != 0;
        Stat2Arg { has_adv, no_id_usage, id_encoded_alias }
    }

    /// Whether the advanced consist of the slot is suppressed.
    pub fn has_adv(&self) -> (r: bool)
        ensures
            r == self.has_adv,
    {
        self.has_adv
    }

    /// Whether the two id bytes are not used for an id.
    pub fn no_id_usage(&self) -> (r: bool)
        ensures
            r == self.no_id_usage,
    {
        self.no_id_usage
    }

    /// Whether the id is no encoded alias.
    pub fn id_encoded_alias(&self) -> (r: bool)
        ensures
            r == self.id_encoded_alias,
    {
        self.id_encoded_alias
    }

    /// The encoded extension byte.
    pub(crate) fn stat2(&self) -> (r: u8)
        ensures
            r == self.spec_stat2(),
    {
        let mut stat2: u8 = if self.has_adv { 0x01 } else { 0x00 };
        if self.no_id_usage {
            stat2 |= 0x04;
        }
        if self.id_encoded_alias {
            stat2 |= 0x08;
        }
        stat2
    }
}

/// An extension status survives the trip onto the wire and back.
pub proof fn lemma_stat2_roundtrip(t: Stat2Arg)
    ensures
        Stat2Arg::spec_parse(t.spec_stat2()) == t,
{
    let a: u8 = if t.has_adv { 0x01 } else { 0x00 };
    let b: u8 = if t.no_id_usage { a | 0x04 } else { a };
    let v: u8 = t.spec_stat2();
    assert(((v & 0x01 != 0) <==> a == 0x01) && ((v & 0x04 != 0) <==> b == a | 0x04) && ((v & 0x08
        != 0) <==> v == b | 0x08) && a | 0x04 != a && b | 0x08 != b) by (bit_vector)
        requires
            a == 0x01 || a == 0x00,
            b == a || b == a | 0x04,
            v == b || v == b | 0x08,
    ;
}

/// A copy of an operation code with the highest bit erased, as carried inside
/// a long acknowledgment.
#[derive(Debug, Copy, Clone, PartialEq, Eq, Hash, Structural)]
pub struct LopcArg(pub u8);

impl LopcArg {
    /// The erased-bit copy fits in seven bits; all constructors mask it so.
    pub open spec fn wf(self) -> bool {
        self.0 < 0x80
    }

    /// The opcode copy decoded from its wire byte.
    pub open spec fn spec_parse(lopc: u8) -> LopcArg {
        LopcArg(lopc & 0x7F)
    }

    /// Creates a new opcode copy from an opcode byte; the highest bit is erased.
    pub fn new(opc: u8) -> (r: Self)
        ensures
            r == Self::spec_parse(opc),
            r.wf(),
    {
        proof {
            assert((opc & 0x7F) & 0x7F == opc & 0x7F) by (bit_vector);
        }
        LopcArg::parse(opc & 0x7F)
    }

    /// Decodes the opcode copy from its wire byte.
    pub(crate) fn parse(lopc: u8) -> (r: Self)
        ensures
            r == Self::spec_parse(lopc),
            r.wf(),
    {
        proof {
            assert(lopc & 0x7F < 0x80 && (lopc & 0x7F) & 0x7F == lopc & 0x7F) by (bit_vector);
        }
        Self(lopc & 0x7F)
    }

    /// The opcode copy held by this arg.
    pub(crate) fn lopc(&self) -> (r: u8)
        ensures
            r == self.0,
    {
        self.0
    }

    /// Whether the opcode of `message`, with its highest bit erased, matches
    /// the opcode copy held by this arg.
    pub fn check_opc(&self, message: &crate::protocol::Message) -> (r: bool)
        ensures
            r == (message.spec_opc() & 0x7F == self.0),
    {
        message.opc() & 0x7F == self.0
    }
}

/// An opcode copy survives the trip onto the wire and back.
pub proof fn lemma_lopc_roundtrip(l: LopcArg)
    requires
        l.wf(),
    ensures
        LopcArg::spec_parse(l.0) == l,
{
    let v = l.0;
    assert(v & 0x7F == v) by (bit_vector)
        requires
            v < 0x80,
    ;
}

/// The response code carried by a long acknowledgment.
#[derive(Debug, Copy, Clone, PartialEq, Eq, Hash, Structural)]
pub struct Ack1Arg(pub u8);

impl Ack1Arg {
    /// Creates a new acknowledgment: `0x7F` reports success, `0x00` failure.
    pub fn new(success: bool) -> (r: Self)
        ensures
            r.0 == if success { 0x7Fu8 } else { 0x00u8 },
    {
        Self(if success { 0x7F } else { 0x00 })
    }

    /// Creates a new acknowledgment carrying the given code, masked to seven
    /// bits: `0x7F` success, `0x00` denied, `0x01` accepted, `0x40` accepted
    /// blind.
    pub fn new_advanced(code: u8) -> (r: Self)
        ensures
            r.0 == code & 0x7F,
    {
        Self(code & 0x7F)
    }

    /// Decodes the acknowledgment code from its wire byte, unchanged.
    pub(crate) fn parse(ack1: u8) -> (r: Self)
        ensures
            r.0 == ack1,
    {
        Self(ack1)
    }

    /// The acknowledgment code as a byte.
    pub fn ack1(&self) -> (r: u8)
        ensures
            r == self.0,
    {
        self.0
    }

    /// Whether the acknowledged operation succeeded.
    pub fn success(&self) -> (r: bool)
        ensures
            r == (self.0 == 0x7F),
    {
        self.0 == 0x7F
    }

    /// Whether the acknowledged operation has not failed.
    pub fn limited_success(&self) -> (r: bool)
        ensures
            r == (self.0 != 0x00),
    {
        self.0 != 0x00
    }

    /// Whether the acknowledged operation failed.
    pub fn failed(&self) -> (r: bool)
        ensures
            r == (self.0 == 0x00),
    {
        self.0 == 0x00
    }

    /// Whether the operation was accepted but has not succeeded yet.
    pub fn accepted(&self) -> (r: bool)
        ensures
            r == (self.0 == 0x01),
    {
        self.0 == 0x01
    }

    /// Whether the operation was accepted without checks.
    pub fn accepted_blind(&self) -> (r: bool)
        ensures
            r == (self.0 == 0x40),
    {
        self.0 == 0x40
    }
}

/// The source type an input report came from.
#[derive(Debug, Copy, Clone, PartialEq, Eq, Hash, Structural)]
pub enum SourceType {
    /// The switch is connected over a DS54 port.
    Ds54Aux,
    /// The switch is directly accessible.
    Switch,
}

/// The detection state of a sensor.
#[derive(Debug, Copy, Clone, PartialEq, Eq, Hash, Structural)]
pub enum SensorLevel {
    /// The sensor detects some energy flow.
    High,
    /// The sensor detects no energy flow.
    Low,
}

/// A sensor input report.
#[derive(Debug, Copy, Clone, PartialEq, Eq, Hash, Structural)]
pub struct InArg {
    /// The address of the sensor (up to eleven bits).
    pub address: u16,
    /// The source type of the sensor.
    pub input_source: SourceType,
    /// The detection state of the sensor.
    pub sensor_level: SensorLevel,
    /// A control bit reserved for future use.
    pub control_bit: bool,
}

impl InArg {
    /// A sensor address fits in eleven bits; all constructors mask or guard it so.
    pub open spec fn wf(self) -> bool {
        self.address < 0x0800
    }

    /// The seven least significant address bits, as written to the wire.
    pub open spec fn spec_in1(self) -> u8 {
        (self.address & 0x007F) as u8
    }

    /// The four most significant address bits combined with the source type,
    /// the sensor level and the control bit, as written to the wire.
    pub open spec fn spec_in2(self) -> u8 {
        let a = (((self.address >> 7) & 0x000F) as u8) | (match self.input_source {
            SourceType::Ds54Aux => 0x00u8,
            SourceType::Switch => 0x20u8,
        });
        let b = a | (match self.sensor_level {
            SensorLevel::High => 0x10u8,
            SensorLevel::Low => 0x00u8,
        });
        if self.control_bit {
            b | 0x40
        } else {
            b
        }
    }

    /// The sensor report decoded from its two wire bytes.
    pub open spec fn spec_parse(in1: u8, in2: u8) -> InArg {
        InArg {
            address: (in1 as u16) | (((in2 & 0x0F) as u16) << 7),
            input_source: if in2 & 0x20 == 0 {
                SourceType::Ds54Aux
            } else {
                SourceType::Switch
            },
            sensor_level: if (in2 & 0x10) != 0 {
                SensorLevel::High
            } else {
                SensorLevel::Low
            },
            control_bit: (in2 & 0x40) != 0,
        }
    }

    /// Creates a new sensor report; the address is masked to eleven bits.
    pub fn new(address: u16, input_source: SourceType, sensor_level: SensorLevel, control_bit: bool)
        -> (r: Self)
        ensures
            r == (InArg { address: address & 0x07FF, input_source, sensor_level, control_bit }),
            r.wf(),
    {
        proof {
            assert(address & 0x07FF < 0x0800) by (bit_vector);
        }
        InArg { address: address & 0x07FF, input_source, sensor_level, control_bit }
    }

    /// Decodes the sensor report from its two wire bytes.
    pub(crate) fn parse(in1: u8, in2: u8) -> (r: Self)
        ensures
            r == Self::spec_parse(in1, in2),
            r.wf(),
    {
        let mut address = in1 as u16;
        address |= ((in2 & 0x0F) as u16) << 7;

        let input_source = if in2 & 0x20 == 0 {
            SourceType::Ds54Aux
        } else {
            SourceType::Switch
        };

        let sensor_level = if (in2 & 0x10) != 0 {
            SensorLevel::High
        } else {
            SensorLevel::Low
        };
        let control_bit = (in2 & 0x40) != 0;
        proof {
            assert((in1 as u16) | (((in2 & 0x0F) as u16) << 7) < 0x0800) by (bit_vector);
        }
        Self { address, input_source, sensor_level, control_bit }
    }

    /// The address of the sensor.
    pub fn address(&self) -> (r: u16)
        ensures
            r == self.address,
    {
        self.address
    }

    /// The address with the source type as its least significant bit.
    pub fn address_ds54(&self) -> (r: u16)
        ensures
            r == (self.address << 1) | (match self.input_source {
                SourceType::Switch => 1u16,
                SourceType::Ds54Aux => 0u16,
            }),
    {
        (self.address << 1) | (match self.input_source {
            SourceType::Switch => 1,
            SourceType::Ds54Aux => 0,
        })
    }

    /// The source type of the sensor.
    pub fn input_source(&self) -> (r: SourceType)
        ensures
            r == self.input_source,
    {
        self.input_source
    }

    /// The detection state of the sensor.
    pub fn sensor_level(&self) -> (r: SensorLevel)
        ensures
            r == self.sensor_level,
    {
        self.sensor_level
    }

    /// The control bit of the sensor.
    pub fn control_bit(&self) -> (r: bool)
        ensures
            r == self.control_bit,
    {
        self.control_bit
    }

    /// Replaces the address; addresses above eleven bits are ignored.
    pub fn set_address(&mut self, address: u16)
        ensures
            *final(self) == if address <= 0x07FF {
                InArg { address, ..*old(self) }
            } else {
                *old(self)
            },
    {
        if address <= 0x07FF {
            self.address = address;
        }
    }

    /// Replaces the address and source type from an address carrying the
    /// source type as its least significant bit; values above twelve bits are
    /// ignored.
    pub fn set_address_ds54(&mut self, address_ds54: u16)
        ensures
            *final(self) == if address_ds54 <= 0x0FFF {
                InArg {
                    address: address_ds54 >> 1,
                    input_source: if address_ds54 & 1 == 0 {
                        SourceType::Ds54Aux
                    } else {
                        SourceType::Switch
                    },
                    ..*old(self)
                }
            } else {
                *old(self)
            },
    {
        if address_ds54 <= 0x0FFF {
            self.input_source = if address_ds54 & 1 == 0 {
                SourceType::Ds54Aux
            } else {
                SourceType::Switch
            };
            proof {
                assert(address_ds54 <= 0x0FFF ==> address_ds54 >> 1 <= 0x07FF) by (bit_vector);
            }
            self.set_address(address_ds54 >> 1);
        }
    }

    /// Replaces the source type of the sensor.
    pub fn set_input_source(&mut self, input_source: SourceType)
        ensures
            *final(self) == (InArg { input_source, ..*old(self) }),
    {
        self.input_source = input_source;
    }

    /// Replaces the detection state of the sensor.
    pub fn set_sensor_level(&mut self, sensor_level: SensorLevel)
        ensures
            *final(self) == (InArg { sensor_level, ..*old(self) }),
    {
        self.sensor_level = sensor_level;
    }

    /// Replaces the control bit of the sensor.
    pub fn set_control_bit(&mut self, control_bit: bool)
        ensures
            *final(self) == (InArg { control_bit, ..*old(self) }),
    {
        self.control_bit = control_bit;
    }

    /// The seven least significant address bits.
    pub(crate) fn in1(&self) -> (r: u8)
        ensures
            r == self.spec_in1(),
    {
        (self.address & 0x007F) as u8
    }

    /// The four most significant address bits combined with the source type,
    /// the sensor level and the control bit.
    pub(crate) fn in2(&self) -> (r: u8)
        ensures
            r == self.spec_in2(),
    {
        let mut in2 = (((self.address >> 7) & 0x000F) as u8);
        in2 |= match self.input_source {
            SourceType::Ds54Aux => 0x00,
            SourceType::Switch => 0x20,
        };
        in2 |= match self.sensor_level {
            SensorLevel::High => 0x10,
            SensorLevel::Low => 0x00,
        };
        if self.control_bit {
            in2 |= 0x40;
        }
        in2
    }
}

/// A wire-legal sensor report survives the trip onto the wire and back.
pub proof fn lemma_in_roundtrip(i: InArg)
    requires
        i.wf(),
    ensures
        InArg::spec_parse(i.spec_in1(), i.spec_in2()) == i,
{
    let v = i.address;
    let sc: u8 = match i.input_source {
        SourceType::Ds54Aux => 0x00,
        SourceType::Switch => 0x20,
    };
    let lv: u8 = match i.sensor_level {
        SensorLevel::High => 0x10,
        SensorLevel::Low => 0x00,
    };
    let a: u8 = (((v >> 7) & 0x000F) as u8) | sc;
    let b: u8 = a | lv;
    let i2: u8 = i.spec_in2();
    assert((((v & 0x007F) as u8) as u16 | (((i2 & 0x0F) as u16) << 7)) == v && ((i2 & 0x20 == 0)
        <==> sc == 0x00) && ((i2 & 0x10 != 0) <==> lv == 0x10) && ((i2 & 0x40 != 0) <==> i2 == b
        | 0x40) && b | 0x40 != b) by (bit_vector)
        requires
            v < 0x0800,
            sc == 0x20 || sc == 0x00,
            lv == 0x10 || lv == 0x00,
            a == (((v >> 7) & 0x000F) as u8) | sc,
            b == a | lv,
            i2 == b || i2 == b | 0x40,
    ;
}

/// Meta information reported for a switch device.
#[derive(Debug, Copy, Clone, PartialEq, Eq, Hash, Structural)]
pub enum SnArg {
    /// The device described by type: address, whether it is a switch, and
    /// whether it is active.
    SwitchType(u16, bool, bool),
    /// The device described by output: address, the activation state of the
    /// straight switch part, and the activation state of the curved part.
    SwitchDirectionStatus(u16, SensorLevel, SensorLevel),
}

impl SnArg {
    /// A device address fits in eleven bits.
    pub open spec fn wf(self) -> bool {
        match self {
            SnArg::SwitchType(address, _, _) => address < 0x0800,
            SnArg::SwitchDirectionStatus(address, _, _) => address < 0x0800,
        }
    }

    /// The address carried by this arg.
    pub open spec fn spec_address(self) -> u16 {
        match self {
            SnArg::SwitchType(address, _, _) => address,
            SnArg::SwitchDirectionStatus(address, _, _) => address,
        }
    }

    /// The seven least significant address bits, as written to the wire.
    pub open spec fn spec_sn1(self) -> u8 {
        (self.spec_address() & 0x007F) as u8
    }

    /// The four most significant address bits combined with the format bit
    /// and the two status bits, as written to the wire.
    pub open spec fn spec_sn2(self) -> u8 {
        match self {
            SnArg::SwitchType(address, is_switch, state) => {
                let a = ((((address >> 7) & 0x000F) as u8) | 0x40) | (if is_switch {
                    0x20u8
                } else {
                    0x00u8
                });
                a | (if state { 0x10u8 } else { 0x00u8 })
            },
            SnArg::SwitchDirectionStatus(address, straight_status, curved_status) => {
                let a = (((address >> 7) & 0x000F) as u8) | (match straight_status {
                    SensorLevel::High => 0x20u8,
                    SensorLevel::Low => 0x00u8,
                });
                a | (match curved_status {
                    SensorLevel::High => 0x10u8,
                    SensorLevel::Low => 0x00u8,
                })
            },
        }
    }

    /// The device report decoded from its two wire bytes.
    pub open spec fn spec_parse(sn1: u8, sn2: u8) -> SnArg {
        let address = (sn1 as u16) | (((sn2 & 0x0F) as u16) << 7);
        let t = sn2 & 0x10 == 0x10;
        let c = sn2 & 0x20 == 0x20;
        if sn2 & 0x40 == 0x40 {
            SnArg::SwitchType(address, c, t)
        } else {
            SnArg::SwitchDirectionStatus(
                address,
                if c {
                    SensorLevel::High
                } else {
                    SensorLevel::Low
                },
                if t {
                    SensorLevel::High
                } else {
                    SensorLevel::Low
                },
            )
        }
    }

    /// Decodes the device report from its two wire bytes.
    pub(crate) fn parse(sn1: u8, sn2: u8) -> (r: Self)
        ensures
            r == Self::spec_parse(sn1, sn2),
    {
        let mut address = sn1 as u16;
        address |= ((sn2 & 0x0F) as u16) << 7;

        let format = sn2 & 0x40 == 0x40;

        let t = sn2 & 0x10 == 0x10;
        let c = sn2 & 0x20 == 0x20;

        if format {
            SnArg::SwitchType(address, c, t)
        } else {
            SnArg::SwitchDirectionStatus(
                address,
                if c {
                    SensorLevel::High
                } else {
                    SensorLevel::Low
                },
                if t {
                    SensorLevel::High
                } else {
                    SensorLevel::Low
                },
            )
        }
    }

    /// The device address.
    pub fn address(&self) -> (r: u16)
        ensures
            r == self.spec_address(),
    {
        match *self {
            SnArg::SwitchType(address, _, _) => address,
            SnArg::SwitchDirectionStatus(address, _, _) => address,
        }
    }

    /// The seven least significant address bits.
    pub(crate) fn sn1(&self) -> (r: u8)
        ensures
            r == self.spec_sn1(),
    {
        (match *self {
            SnArg::SwitchDirectionStatus(address, _, _) => address,
            SnArg::SwitchType(address, _, _) => address,
        } & 0x007F) as u8
    }

    /// The four most significant address bits combined with the format bit
    /// and the two status bits.
    pub(crate) fn sn2(&self) -> (r: u8)
        ensures
            r == self.spec_sn2(),
    {
        match *self {
            SnArg::SwitchType(address, is_switch, state) => {
                let mut sn2 = (((address >> 7) & 0x000F) as u8) | 0x40;

                sn2 |= if is_switch { 0x20 } else { 0x00 };
                sn2 | if state { 0x10 } else { 0x00 }
            },
            SnArg::SwitchDirectionStatus(address, straight_status, curved_status) => {
                let mut sn2 = ((address >> 7) & 0x000F) as u8;

                sn2 |= match straight_status {
                    SensorLevel::High => 0x20,
                    SensorLevel::Low => 0x00,
                };
                sn2 | match curved_status {
                    SensorLevel::High => 0x10,
                    SensorLevel::Low => 0x00,
                }
            },
        }
    }
}

/// A wire-legal device report survives the trip onto the wire and back.
pub proof fn lemma_sn_roundtrip(s: SnArg)
    requires
        s.wf(),
    ensures
        SnArg::spec_parse(s.spec_sn1(), s.spec_sn2()) == s,
{
    match s {
        SnArg::SwitchType(address, is_switch, state) => {
            let cb: u8 = if is_switch { 0x20 } else { 0x00 };
            let tb: u8 = if state { 0x10 } else { 0x00 };
            let v2: u8 = s.spec_sn2();
            assert((((address & 0x007F) as u8) as u16 | (((v2 & 0x0F) as u16) << 7)) == address
                && v2 & 0x40 == 0x40 && ((v2 & 0x20 == 0x20) <==> cb == 0x20) && ((v2 & 0x10
                == 0x10) <==> tb == 0x10)) by (bit_vector)
                requires
                    address < 0x0800,
                    cb == 0x20 || cb == 0x00,
                    tb == 0x10 || tb == 0x00,
                    v2 == (((((address >> 7) & 0x000F) as u8) | 0x40) | cb) | tb,
            ;
        },
        SnArg::SwitchDirectionStatus(address, straight_status, curved_status) => {
            let cb: u8 = match straight_status {
                SensorLevel::High => 0x20,
                SensorLevel::Low => 0x00,
            };
            let tb: u8 = match curved_status {
                SensorLevel::High => 0x10,
                SensorLevel::Low => 0x00,
            };
            let v2: u8 = s.spec_sn2();
            assert((((address & 0x007F) as u8) as u16 | (((v2 & 0x0F) as u16) << 7)) == address
                && v2 & 0x40 != 0x40 && ((v2 & 0x20 == 0x20) <==> cb == 0x20) && ((v2 & 0x10
                == 0x10) <==> tb == 0x10)) by (bit_vector)
                requires
                    address < 0x0800,
                    cb == 0x20 || cb == 0x00,
                    tb == 0x10 || tb == 0x00,
                    v2 == ((((address >> 7) & 0x000F) as u8) | cb) | tb,
            ;
        },
    }
}

/// The id of the device controlling a slot: zero when no id is used.
#[derive(Debug, Copy, Clone, PartialEq, Eq, Hash, Structural)]
pub struct IdArg(pub u16);

impl IdArg {
    /// A device id fits in fourteen bits; all constructors mask it so.
    pub open spec fn wf(self) -> bool {
        self.0 < 0x4000
    }

    /// The seven least significant id bits, as written to the wire.
    pub open spec fn spec_id1(self) -> u8 {
        (self.0 & 0x007F) as u8
    }

    /// The seven most significant id bits, as written to the wire.
    pub open spec fn spec_id2(self) -> u8 {
        ((self.0 >> 7) & 0x007F) as u8
    }

    /// The device id decoded from its two wire bytes.
    pub open spec fn spec_parse(id1: u8, id2: u8) -> IdArg {
        IdArg((((id2 & 0x7F) as u16) << 7) | ((id1 & 0x7F) as u16))
    }

    /// Creates a new device id, masked to fourteen bits.
    pub fn new(id: u16) -> (r: Self)
        ensures
            r.0 == id & 0x3FFF,
            r.wf(),
    {
        proof {
            assert(id & 0x3FFF < 0x4000) by (bit_vector);
        }
        IdArg(id & 0x3FFF)
    }

    /// Decodes the device id from its two wire bytes.
    pub(crate) fn parse(id1: u8, id2: u8) -> (r: Self)
        ensures
            r == Self::spec_parse(id1, id2),
            r.wf(),
    {
        proof {
            assert((((id2 & 0x7F) as u16) << 7) | ((id1 & 0x7F) as u16) < 0x4000) by (bit_vector);
        }
        IdArg((((id2 & 0x7F) as u16) << 7) | ((id1 & 0x7F) as u16))
    }

    /// The device id.
    pub fn id(&self) -> (r: u16)
        ensures
            r == self.0,
    {
        self.0
    }

    /// The seven least significant id bits.
    pub(crate) fn id1(&self) -> (r: u8)
        ensures
            r == self.spec_id1(),
    {
        (self.0 & 0x007F) as u8
    }

    /// The seven most significant id bits.
    pub(crate) fn id2(&self) -> (r: u8)
        ensures
            r == self.spec_id2(),
    {
        ((self.0 >> 7) & 0x007F) as u8
    }
}

/// A device id survives the trip onto the wire and back.
pub proof fn lemma_id_roundtrip(i: IdArg)
    requires
        i.wf(),
    ensures
        IdArg::spec_parse(i.spec_id1(), i.spec_id2()) == i,
{
    let v = i.0;
    assert((((((v >> 7) & 0x007F) as u8) & 0x7F) as u16) << 7 | ((((v & 0x007F) as u8) & 0x7F)
        as u16) == v) by (bit_vector)
        requires
            v < 0x4000,
    ;
}

/// Power information for one railway sector.
#[derive(Debug, Copy, Clone, PartialEq, Eq, Hash, Structural)]
pub struct MultiSenseArg {
    /// The three-bit type of this report.
    pub m_type: u8,
    /// The present state of the sender.
    pub present: bool,
    /// The board address of the sector.
    pub board_address: u8,
    /// The zone of the sector.
    pub zone: u8,
}

impl MultiSenseArg {
    /// The type fits in three bits and the zone in four.
    pub open spec fn wf(self) -> bool {
        self.m_type < 0x08 && self.zone < 0x10
    }

    /// The wire byte holding the low board-address bits and the zone.
    pub open spec fn spec_zas(self) -> u8 {
        self.zone | ((self.board_address & 0x0F) << 4)
    }

    /// The wire byte holding the high board-address bits, the type and the
    /// present bit.
    pub open spec fn spec_m_high(self) -> u8 {
        (((self.board_address & 0xF0) >> 4) | ((self.m_type & 0x07) << 5)) | (if self.present {
            0x10u8
        } else {
            0x00u8
        })
    }

    /// The power report decoded from its two wire bytes.
    pub open spec fn spec_parse(m_high: u8, zas: u8) -> MultiSenseArg {
        MultiSenseArg {
            m_type: (0xE0 & m_high) >> 5,
            present: 0x10 & m_high == 0x10,
            board_address: ((0x0F & m_high) << 4) | ((zas & 0xF0) >> 4),
            zone: 0x0F & zas,
        }
    }

    /// Creates a new power report; the type is masked to three bits.
    pub fn new(m_type: u8, present: bool, board_address: u8, zone: u8) -> (r: Self)
        ensures
            r == (MultiSenseArg { m_type: m_type & 0x07, present, board_address, zone }),
    {
        Self { m_type: m_type & 0x07, present, board_address, zone }
    }

    /// Decodes the power report from its two wire bytes.
    pub(crate) fn parse(m_high: u8, zas: u8) -> (r: Self)
        ensures
            r == Self::spec_parse(m_high, zas),
    {
        let m_type = (0xE0 & m_high) >> 5;
        let present = 0x10 & m_high == 0x10;
        let board_address = ((0x0F & m_high) << 4) | ((zas & 0xF0) >> 4);
        let zone = 0x0F & zas;

        MultiSenseArg { m_type, present, board_address, zone }
    }

    /// The three-bit type of this report.
    pub fn m_type(&self) -> (r: u8)
        ensures
            r == self.m_type,
    {
        self.m_type
    }

    /// The present state of the sender.
    pub fn present(&self) -> (r: bool)
        ensures
            r == self.present,
    {
        self.present
    }

    /// The board address of the sector.
    pub fn board_address(&self) -> (r: u8)
        ensures
            r == self.board_address,
    {
        self.board_address
    }

    /// The zone of the sector.
    pub fn zone(&self) -> (r: u8)
        ensures
            r == self.zone,
    {
        self.zone
    }

    /// The wire byte holding the low board-address bits and the zone.
    pub(crate) fn zas(&self) -> (r: u8)
        ensures
            r == self.spec_zas(),
    {
        self.zone | ((self.board_address & 0x0F) << 4)
    }

    /// The wire byte holding the high board-address bits, the type and the
    /// present bit.
    pub(crate) fn m_high(&self) -> (r: u8)
        ensures
            r == self.spec_m_high(),
    {
        (((self.board_address & 0xF0) >> 4) | ((self.m_type & 0x07) << 5)) | (if self.present {
            0x10
        } else {
            0x00
        })
    }
}

/// A wire-legal power report survives the trip onto the wire and back.
pub proof fn lemma_multi_sense_roundtrip(m: MultiSenseArg)
    requires
        m.wf(),
    ensures
        MultiSenseArg::spec_parse(m.spec_m_high(), m.spec_zas()) == m,
{
    let ty = m.m_type;
    let ba = m.board_address;
    let zo = m.zone;
    let pb: u8 = if m.present { 0x10 } else { 0x00 };
    let mh: u8 = m.spec_m_high();
    let za: u8 = m.spec_zas();
    assert((0xE0 & mh) >> 5 == ty && ((0x10 & mh == 0x10) <==> pb == 0x10) && ((0x0F & mh) << 4) | (
    (za & 0xF0) >> 4) == ba && 0x0F & za == zo) by (bit_vector)
        requires
            ty < 0x08,
            zo < 0x10,
            pb == 0x10 || pb == 0x00,
            mh == (((ba & 0xF0) >> 4) | ((ty & 0x07) << 5)) | pb,
            za == zo | ((ba & 0x0F) << 4),
    ;
}

/// The group of function flags a [`FunctionArg`] gives access to.
#[derive(Debug, Copy, Clone, PartialEq, Eq, Hash, Structural)]
pub enum FunctionGroup {
    /// Function flags 9, 10 and 11.
    F9TO11,
    /// Function flags 13 to 19.
    F13TO19,
    /// Function flags 12, 20 and 28.
    F12F20F28,
    /// Function flags 21 to 27.
    F21TO27,
}

/// The function flags of one function group: the group selector byte and the
/// flag bits themselves.
#[derive(Debug, Copy, Clone, PartialEq, Eq, Hash, Structural)]
pub struct FunctionArg(pub u8, pub u8);

impl FunctionArg {
    /// The value of function flag `f_num`, when the flag belongs to the
    /// active group of this arg; any other flag reads false.
    pub open spec fn spec_f(self, f_num: u8) -> bool {
        if f_num > 8 && f_num < 12 && self.0 == 0x07 {
            (self.1 >> ((f_num - 5) as u8)) & 1 != 0
        } else if (f_num == 12 || f_num == 20 || f_num == 28) && self.0 == 0x05 {
            (self.1 >> (if f_num == 12 {
                4u8
            } else if f_num == 20 {
                5u8
            } else {
                6u8
            })) & 1 != 0
        } else if f_num > 12 && f_num < 20 && self.0 == 0x08 {
            (self.1 >> ((f_num - 13) as u8)) & 1 != 0
        } else if f_num > 20 && f_num < 28 && self.0 == 0x09 {
            (self.1 >> ((f_num - 21) as u8)) & 1 != 0
        } else {
            false
        }
    }

    /// The bit written by `set_f` for flag `f_num` under the active group,
    /// the same bit that `f` reads; zero when the flag does not belong to the
    /// group.
    pub open spec fn spec_f_mask(self, f_num: u8) -> u8 {
        if f_num > 8 && f_num < 12 && self.0 == 0x07 {
            (1u8 << ((f_num - 5) as u8)) as u8
        } else if (f_num == 12 || f_num == 20 || f_num == 28) && self.0 == 0x05 {
            (1u8 << (if f_num == 12 {
                4u8
            } else if f_num == 20 {
                5u8
            } else {
                6u8
            })) as u8
        } else if f_num > 12 && f_num < 20 && self.0 == 0x08 {
            (1u8 << ((f_num - 13) as u8)) as u8
        } else if f_num > 20 && f_num < 28 && self.0 == 0x09 {
            (1u8 << ((f_num - 21) as u8)) as u8
        } else {
            0x00u8
        }
    }

    /// Creates a new function arg for the given group, with no flag set.
    pub fn new(group: FunctionGroup) -> (r: Self)
        ensures
            r == FunctionArg(
                match group {
                    FunctionGroup::F9TO11 => 0x07u8,
                    FunctionGroup::F13TO19 => 0x08u8,
                    FunctionGroup::F12F20F28 => 0x05u8,
                    FunctionGroup::F21TO27 => 0x09u8,
                },
                0u8,
            ),
    {
        FunctionArg(
            match group {
                FunctionGroup::F9TO11 => 0x07,
                FunctionGroup::F13TO19 => 0x08,
                FunctionGroup::F12F20F28 => 0x05,
                FunctionGroup::F21TO27 => 0x09,
            },
            0,
        )
    }

    /// Decodes the group selector and flag bits from their two wire bytes,
    /// unchanged.
    pub(crate) fn parse(group: u8, function: u8) -> (r: Self)
        ensures
            r == FunctionArg(group, function),
    {
        FunctionArg(group, function)
    }

    /// The value of function flag `f_num`, when the flag belongs to the
    /// active group of this arg; any other flag reads false.
    pub fn f(&self, f_num: u8) -> (r: bool)
        ensures
            r == self.spec_f(f_num),
    {
        if f_num > 8 && f_num < 12 && self.0 == 0x07 {
            (self.1 >> (f_num - 5)) & 1 != 0
        } else if (f_num == 12 || f_num == 20 || f_num == 28) && self.0 == 0x05 {
            (self.1 >> (if f_num == 12 {
                4
            } else if f_num == 20 {
                5
            } else {
                6
            })) & 1 != 0
        } else if f_num > 12 && f_num < 20 && self.0 == 0x08 {
            (self.1 >> (f_num - 13)) & 1 != 0
        } else if f_num > 20 && f_num < 28 && self.0 == 0x09 {
            (self.1 >> (f_num - 21)) & 1 != 0
        } else {
            false
        }
    }

    /// Sets function flag `f_num` when it belongs to the active group of this
    /// arg, in the same bit position that `f` reads; flags of other groups
    /// are ignored.
    pub fn set_f(&mut self, f_num: u8, value: bool)
        ensures
            final(self).0 == old(self).0,
            final(self).1 == if value {
                old(self).1 | old(self).spec_f_mask(f_num)
            } else {
                old(self).1 & !old(self).spec_f_mask(f_num)
            },
    {
        let mask: u8 = if f_num > 8 && f_num < 12 && self.0 == 0x07 {
            1 << (f_num - 5)
        } else if (f_num == 12 || f_num == 20 || f_num == 28) && self.0 == 0x05 {
            1 << (if f_num == 12 {
                4
            } else if f_num == 20 {
                5
            } else {
                6
            })
        } else if f_num > 12 && f_num < 20 && self.0 == 0x08 {
            1 << (f_num - 13)
        } else if f_num > 20 && f_num < 28 && self.0 == 0x09 {
            1 << (f_num - 21)
        } else {
            0x00
        };

        if value {
            self.1 |= mask;
        } else {
            self.1 &= !mask;
        }
    }

    /// The function group whose flags this arg can hold; an unknown selector
    /// byte reads as the first group.
    pub fn function_group(&self) -> (r: FunctionGroup)
        ensures
            r == if self.0 == 0x07 {
                FunctionGroup::F9TO11
            } else if self.0 == 0x05 {
                FunctionGroup::F12F20F28
            } else if self.0 == 0x08 {
                FunctionGroup::F13TO19
            } else if self.0 == 0x09 {
                FunctionGroup::F21TO27
            } else {
                FunctionGroup::F9TO11
            },
    {
        if self.0 == 0x07 {
            FunctionGroup::F9TO11
        } else if self.0 == 0x05 {
            FunctionGroup::F12F20F28
        } else if self.0 == 0x08 {
            FunctionGroup::F13TO19
        } else if self.0 == 0x09 {
            FunctionGroup::F21TO27
        } else {
            FunctionGroup::F9TO11
        }
    }

    /// The group selector byte.
    pub(crate) fn group(&self) -> (r: u8)
        ensures
            r == self.0,
    {
        self.0
    }

    /// The flag bits as one byte.
    pub(crate) fn function(&self) -> (r: u8)
        ensures
            r == self.1,
    {
        self.1
    }
}

/// The command mode used to access the programming track.
#[derive(Debug, Copy, Clone, PartialEq, Eq, Hash, Structural)]
pub struct Pcmd {
    /// Whether to write; reads otherwise.
    pub write: bool,
    /// Whether to use byte mode; bit mode otherwise.
    pub byte_mode: bool,
    /// Whether to use the main track; the programming track otherwise.
    pub ops_mode: bool,
    /// The first programming type select bit.
    pub ty0: bool,
    /// The second programming type select bit.
    pub ty1: bool,
}

impl Pcmd {
    /// The encoded command byte, built bit by bit in the order the flags are
    /// applied.
    pub open spec fn spec_pcmd(self) -> u8 {
        let a = if self.write { 0x20u8 } else { 0x00u8 };
        let b = if self.byte_mode { a | 0x40 } else { a };
        let c = if self.ops_mode { b | 0x02 } else { b };
        let d = if self.ty0 { c | 0x80 } else { c };
        if self.ty1 { d | 0x01 } else { d }
    }

    /// The programming command decoded from its wire byte.
    pub open spec fn spec_parse(pcmd: u8) -> Pcmd {
        Pcmd {
            write: pcmd & 0x20 == 0x20,
            byte_mode: pcmd & 0x40 == 0x40,
            ops_mode: pcmd & 0x02 == 0x02,
            ty0: pcmd & 0x80 == 0x80,
            ty1: pcmd & 0x01 == 0x01,
        }
    }

    /// Creates a new programming command.
    pub fn new(write: bool, byte_mode: bool, ops_mode: bool, ty0: bool, ty1: bool) -> (r: Self)
        ensures
            r == (Pcmd { write, byte_mode, ops_mode, ty0, ty1 }),
    {
        Pcmd { write, byte_mode, ops_mode, ty0, ty1 }
    }

    /// Decodes the programming command from its wire byte.
    pub(crate) fn parse(pcmd: u8) -> (r: Self)
        ensures
            r == Self::spec_parse(pcmd),
    {
        let write = pcmd & 0x20 == 0x20;
        let byte_mode = pcmd & 0x40 == 0x40;
        let ops_mode = pcmd & 0x02 == 0x02;
        let ty0 = pcmd & 0x80 == 0x80;
        let ty1 = pcmd & 0x01 == 0x01;

        Pcmd { write, byte_mode, ops_mode, ty0, ty1 }
    }

    /// Whether to write; reads otherwise.
    pub fn write(&self) -> (r: bool)
        ensures
            r == self.write,
    {
        self.write
    }

    /// Whether to use byte mode; bit mode otherwise.
    pub fn byte_mode(&self) -> (r: bool)
        ensures
            r == self.byte_mode,
    {
        self.byte_mode
    }

    /// Whether to use the main track; the programming track otherwise.
    pub fn ops_mode(&self) -> (r: bool)
        ensures
            r == self.ops_mode,
    {
        self.ops_mode
    }

    /// The first programming type select bit.
    pub fn ty0(&self) -> (r: bool)
        ensures
            r == self.ty0,
    {
        self.ty0
    }

    /// The second programming type select bit.
    pub fn ty1(&self) -> (r: bool)
        ensures
            r == self.ty1,
    {
        self.ty1
    }

    /// Replaces the write flag.
    pub fn set_write(&mut self, write: bool)
        ensures
            *final(self) == (Pcmd { write, ..*old(self) }),
    {
        self.write = write
    }

    /// Replaces the byte-mode flag.
    pub fn set_byte_mode(&mut self, byte_mode: bool)
        ensures
            *final(self) == (Pcmd { byte_mode, ..*old(self) }),
    {
        self.byte_mode = byte_mode
    }

    /// Replaces the track-mode flag.
    pub fn set_ops_mode(&mut self, ops_mode: bool)
        ensures
            *final(self) == (Pcmd { ops_mode, ..*old(self) }),
    {
        self.ops_mode = ops_mode
    }

    /// Replaces the first type select bit.
    pub fn set_ty0(&mut self, ty0: bool)
        ensures
            *final(self) == (Pcmd { ty0, ..*old(self) }),
    {
        self.ty0 = ty0
    }

    /// Replaces the second type select bit.
    pub fn set_ty1(&mut self, ty1: bool)
        ensures
            *final(self) == (Pcmd { ty1, ..*old(self) }),
    {
        self.ty1 = ty1
    }

    /// The encoded command byte.
    pub(crate) fn pcmd(&self) -> (r: u8)
        ensures
            r == self.spec_pcmd(),
    {
        let mut pcmd: u8 = if self.write { 0x20 } else { 0x00 };
        if self.byte_mode {
            pcmd |= 0x40;
        }
        if self.ops_mode {
            pcmd |= 0x02;
        }
        if self.ty0 {
            pcmd |= 0x80;
        }
        if self.ty1 {
            pcmd |= 0x01;
        }
        pcmd
    }
}

/// A programming command survives the trip onto the wire and back.
pub proof fn lemma_pcmd_roundtrip(p: Pcmd)
    ensures
        Pcmd::spec_parse(p.spec_pcmd()) == p,
{
    let a: u8 = if p.write { 0x20 } else { 0x00 };
    let b: u8 = if p.byte_mode { a | 0x40 } else { a };
    let c: u8 = if p.ops_mode { b | 0x02 } else { b };
    let d: u8 = if p.ty0 { c | 0x80 } else { c };
    let v: u8 = p.spec_pcmd();
    assert(((v & 0x20 == 0x20) <==> a == 0x20) && ((v & 0x40 == 0x40) <==> b == a | 0x40) && ((v
        & 0x02 == 0x02) <==> c == b | 0x02) && ((v & 0x80 == 0x80) <==> d == c | 0x80) && ((v & 0x01
        == 0x01) <==> v == d | 0x01) && a | 0x40 != a && b | 0x02 != b && c | 0x80 != c && d | 0x01
        != d) by (bit_vector)
        requires
            a == 0x20 || a == 0x00,
            b == a || b == a | 0x40,
            c == b || c == b | 0x02,
            d == c || d == c | 0x80,
            v == d || v == d | 0x01,
    ;
}

/// The error flags reported for a programming operation.
#[derive(Debug, Copy, Clone, PartialEq, Eq, Hash, Structural)]
pub struct PStat {
    /// The user canceled the operation.
    pub user_aborted: bool,
    /// No read acknowledgment was received.
    pub no_read_ack: bool,
    /// No write acknowledgment was received.
    pub no_write_ack: bool,
    /// No train was found on the programming track.
    pub programming_track_empty: bool,
}

impl PStat {
    /// The encoded error byte, built bit by bit in the order the flags are
    /// applied.
    pub open spec fn spec_stat(self) -> u8 {
        let a = if self.user_aborted { 0x01u8 } else { 0x00u8 };
        let b = if self.no_read_ack { a | 0x02 } else { a };
        let c = if self.no_write_ack { b | 0x04 } else { b };
        if self.programming_track_empty { c | 0x08 } else { c }
    }

    /// The error flags decoded from their wire byte.
    pub open spec fn spec_parse(stat: u8) -> PStat {
        PStat {
            user_aborted: stat & 0x01 == 0x01,
            no_read_ack: stat & 0x02 == 0x02,
            no_write_ack: stat & 0x04 == 0x04,
            programming_track_empty: stat & 0x08 == 0x08,
        }
    }

    /// Creates new programming error information.
    pub fn new(user_aborted: bool, no_read_ack: bool, no_write_ack: bool,
        programming_track_empty: bool) -> (r: Self)
        ensures
            r == (PStat { user_aborted, no_read_ack, no_write_ack, programming_track_empty }),
    {
        PStat { user_aborted, no_read_ack, no_write_ack, programming_track_empty }
    }

    /// Decodes the error flags from their wire byte.
    pub fn parse(stat: u8) -> (r: Self)
        ensures
            r == Self::spec_parse(stat),
    {
        let user_aborted = stat & 0x01 == 0x01;
        let no_read_ack = stat & 0x02 == 0x02;
        let no_write_ack = stat & 0x04 == 0x04;
        let programming_track_empty = stat & 0x08 == 0x08;

        PStat { user_aborted, no_read_ack, no_write_ack, programming_track_empty }
    }

    /// Whether the user canceled the operation.
    pub fn user_aborted(&self) -> (r: bool)
        ensures
            r == self.user_aborted,
    {
        self.user_aborted
    }

    /// Whether a missing read acknowledgment canceled the operation.
    pub fn no_read_ack(&self) -> (r: bool)
        ensures
            r == self.no_read_ack,
    {
        self.no_read_ack
    }

    /// Whether a missing write acknowledgment canceled the operation.
    pub fn no_write_ack(&self) -> (r: bool)
        ensures
            r == self.no_write_ack,
    {
        self.no_write_ack
    }

    /// Whether no train was found on the programming track.
    pub fn programming_track_empty(&self) -> (r: bool)
        ensures
            r == self.programming_track_empty,
    {
        self.programming_track_empty
    }

    /// The encoded error byte.
    pub fn stat(&self) -> (r: u8)
        ensures
            r == self.spec_stat(),
    {
        let mut stat: u8 = if self.user_aborted { 0x01 } else { 0x00 };
        if self.no_read_ack {
            stat |= 0x02;
        }
        if self.no_write_ack {
            stat |= 0x04;
        }
        if self.programming_track_empty {
            stat |= 0x08;
        }
        stat
    }
}

/// A control-variable number and the data byte to program into it.
#[derive(Debug, Copy, Clone, PartialEq, Eq, Hash, Structural, Default)]
pub struct CvDataArg(pub u16, pub u8);

impl CvDataArg {
    /// Only the eight low control-variable bits can be carried on the wire.
    pub open spec fn wf(self) -> bool {
        self.0 < 0x100
    }

    /// The value of data bit `d_num`.
    pub open spec fn spec_data(self, d_num: u8) -> bool {
        (self.1 >> d_num) & 0x01 != 0
    }

    /// The value of control-variable bit `cv_num`.
    pub open spec fn spec_cv(self, cv_num: u8) -> bool {
        (self.0 >> cv_num) & 1 != 0
    }

    /// The wire byte holding the high control-variable bits and the seventh
    /// data bit.
    pub open spec fn spec_cvh(self) -> u8 {
        let a = (self.0 >> 7) as u8;
        let b = (a & 0x01) | (a & 0x30);
        if self.spec_data(7) {
            b | 0x02
        } else {
            b
        }
    }

    /// The wire byte holding the seven low control-variable bits.
    pub open spec fn spec_cvl(self) -> u8 {
        (self.0 & 0x7F) as u8
    }

    /// The wire byte holding the data bits 0 to 6.
    pub open spec fn spec_data7(self) -> u8 {
        self.1 & 0x7F
    }

    /// The control-variable data decoded from its three wire bytes.
    pub open spec fn spec_parse(cvh: u8, cvl: u8, data7: u8) -> CvDataArg {
        CvDataArg(
            (cvl as u16) | ((((cvh & 0x01) | ((cvh & 0x30) >> 3)) as u16) << 7),
            ((cvh & 0x02) << 6) | data7,
        )
    }

    /// Creates a new empty arg: every bit cleared.
    pub fn new() -> (r: CvDataArg)
        ensures
            r == CvDataArg(0u16, 0u8),
    {
        CvDataArg(0, 0)
    }

    /// Decodes the control-variable data from its three wire bytes.
    pub(crate) fn parse(cvh: u8, cvl: u8, data7: u8) -> (r: Self)
        ensures
            r == Self::spec_parse(cvh, cvl, data7),
    {
        let data = ((cvh & 0x02) << 6) | data7;

        let mut high_cv_arg = cvh & 0x01;
        high_cv_arg |= (cvh & 0x30) >> 3;

        let mut cv_arg = cvl as u16;
        cv_arg |= (high_cv_arg as u16) << 7;

        CvDataArg(cv_arg, data)
    }

    /// The value of data bit `d_num`; only bits 0 to 7 exist.
    pub fn data(&self, d_num: u8) -> (r: bool)
        requires
            d_num < 8,
        ensures
            r == self.spec_data(d_num),
    {
        (self.1 >> d_num) & 0x01 != 0
    }

    /// The value of control-variable bit `cv_num`; only bits 0 to 9 are
    /// meaningful.
    pub fn cv(&self, cv_num: u8) -> (r: bool)
        requires
            cv_num < 16,
        ensures
            r == self.spec_cv(cv_num),
    {
        self.0 >> cv_num & 1 != 0
    }

    /// Sets data bit `d_num`; only bits 0 to 7 exist.
    pub fn set_data(&mut self, d_num: u8, value: bool)
        requires
            d_num < 8,
        ensures
            final(self).0 == old(self).0,
            final(self).1 == if value {
                old(self).1 | (1u8 << d_num)
            } else {
                old(self).1 & !(1u8 << d_num)
            },
    {
        let mask: u8 = 1 << d_num;

        if value {
            self.1 |= mask;
        } else {
            self.1 &= !mask;
        }
    }

    /// Sets control-variable bit `cv_num`; only bits 0 to 9 can be set.
    pub fn set_cv(&mut self, cv_num: u8, value: bool)
        requires
            cv_num < 16,
        ensures
            final(self).1 == old(self).1,
            final(self).0 == if value {
                old(self).0 | ((1u16 << cv_num) & 0x03FF)
            } else {
                old(self).0 & !((1u16 << cv_num) & 0x03FF)
            },
    {
        let mask: u16 = (1 << cv_num) & 0x03FF;

        if value {
            self.0 |= mask;
        } else {
            self.0 &= !mask;
        }
    }

    /// The wire byte holding the high control-variable bits and the seventh
    /// data bit.
    pub(crate) fn cvh(&self) -> (r: u8)
        ensures
            r == self.spec_cvh(),
    {
        let a = (self.0 >> 7) as u8;
        let b = (a & 0x01) | (a & 0x30);
        if self.data(7) {
            b | 0x02
        } else {
            b
        }
    }

    /// The wire byte holding the seven low control-variable bits.
    pub(crate) fn cvl(&self) -> (r: u8)
        ensures
            r == self.spec_cvl(),
    {
        (self.0 & 0x7F) as u8
    }

    /// The wire byte holding the data bits 0 to 6.
    pub(crate) fn data7(&self) -> (r: u8)
        ensures
            r == self.spec_data7(),
    {
        self.1 & 0x7F
    }
}

/// Wire-legal control-variable data survives the trip onto the wire and back.
pub proof fn lemma_cv_data_roundtrip(c: CvDataArg)
    requires
        c.wf(),
    ensures
        CvDataArg::spec_parse(c.spec_cvh(), c.spec_cvl(), c.spec_data7()) == c,
{
    let v = c.0;
    let w = c.1;
    let a: u8 = (v >> 7) as u8;
    let b: u8 = (a & 0x01) | (a & 0x30);
    let ch: u8 = c.spec_cvh();
    assert((((v & 0x7F) as u8) as u16 | ((((ch & 0x01) | ((ch & 0x30) >> 3)) as u16) << 7)) == v
        && (((ch & 0x02) << 6) | (w & 0x7F)) == w) by (bit_vector)
        requires
            v < 0x100,
            a == (v >> 7) as u8,
            b == (a & 0x01) | (a & 0x30),
            ((w >> 7) & 0x01 != 0 && ch == b | 0x02) || ((w >> 7) & 0x01 == 0 && ch == b),
    ;
}

/// The state of the fast clock broadcast over the bus.
#[derive(Debug, Copy, Clone, PartialEq, Eq, Hash, Structural)]
pub struct FastClock {
    /// The clock tick rate: 0 is frozen, `x` runs at an `x` to 1 rate.
    pub clk_rate: u8,
    /// The internal subminute counter.
    pub frac_mins: u16,
    /// The clock minutes, counted as 256 minus minutes remaining to the hour.
    pub mins: u8,
    /// The clock hours, counted as 256 minus hours remaining to the day.
    pub hours: u8,
    /// The number of 24-hour cycles passed.
    pub days: u8,
    /// Clock control information; the third bit marks the data valid.
    pub clk_cntrl: u8,
}

impl FastClock {
    /// A clock rate is wire-legal when it fits in seven bits.
    pub open spec fn wf(self) -> bool {
        self.clk_rate < 0x80
    }

    /// The low byte of the subminute counter, as written to the wire.
    pub open spec fn spec_frac_minsl(self) -> u8 {
        (self.frac_mins & 0xFF) as u8
    }

    /// The high byte of the subminute counter, as written to the wire.
    pub open spec fn spec_frac_minsh(self) -> u8 {
        (self.frac_mins >> 8) as u8
    }

    /// The clock state decoded from its seven wire bytes.
    pub open spec fn spec_parse(
        clk_rate: u8,
        frac_minsl: u8,
        frac_minsh: u8,
        mins: u8,
        hours: u8,
        days: u8,
        clk_cntrl: u8,
    ) -> FastClock {
        FastClock {
            clk_rate: clk_rate & 0x7F,
            frac_mins: (frac_minsl as u16) | ((frac_minsh as u16) << 8),
            mins,
            hours,
            days,
            clk_cntrl,
        }
    }

    /// Creates new clock-synchronisation information.
    pub fn new(clk_rate: u8, frac_mins: u16, mins: u8, hours: u8, days: u8, clk_cntrl: u8) -> (r:
        Self)
        ensures
            r == (FastClock { clk_rate, frac_mins, mins, hours, days, clk_cntrl }),
    {
        FastClock { clk_rate, frac_mins, mins, hours, days, clk_cntrl }
    }

    /// Decodes the clock state from its seven wire bytes.
    pub(crate) fn parse(
        clk_rate: u8,
        frac_minsl: u8,
        frac_minsh: u8,
        mins: u8,
        hours: u8,
        days: u8,
        clk_cntrl: u8,
    ) -> (r: Self)
        ensures
            r == Self::spec_parse(clk_rate, frac_minsl, frac_minsh, mins, hours, days, clk_cntrl),
    {
        FastClock {
            clk_rate: clk_rate & 0x7F,
            frac_mins: (frac_minsl as u16) | ((frac_minsh as u16) << 8),
            mins,
            hours,
            days,
            clk_cntrl,
        }
    }

    /// The clock tick rate.
    pub fn clk_rate(&self) -> (r: u8)
        ensures
            r == self.clk_rate,
    {
        self.clk_rate
    }

    /// The low byte of the subminute counter.
    pub(crate) fn frac_minsl(&self) -> (r: u8)
        ensures
            r == self.spec_frac_minsl(),
    {
        (self.frac_mins & 0xFF) as u8
    }

    /// The high byte of the subminute counter.
    pub(crate) fn frac_minsh(&self) -> (r: u8)
        ensures
            r == self.spec_frac_minsh(),
    {
        (self.frac_mins >> 8) as u8
    }

    /// The internal subminute counter.
    pub fn frac_mins(&self) -> (r: u16)
        ensures
            r == self.frac_mins,
    {
        self.frac_mins
    }

    /// The clock minutes.
    pub fn mins(&self) -> (r: u8)
        ensures
            r == self.mins,
    {
        self.mins
    }

    /// The clock hours.
    pub fn hours(&self) -> (r: u8)
        ensures
            r == self.hours,
    {
        self.hours
    }

    /// The count of 24-hour cycles passed.
    pub fn days(&self) -> (r: u8)
        ensures
            r == self.days,
    {
        self.days
    }

    /// The clock control byte.
    pub fn clk_cntrl(&self) -> (r: u8)
        ensures
            r == self.clk_cntrl,
    {
        self.clk_cntrl
    }
}

/// A wire-legal clock state survives the trip onto the wire and back.
pub proof fn lemma_fast_clock_roundtrip(f: FastClock)
    requires
        f.wf(),
    ensures
        FastClock::spec_parse(
            f.clk_rate,
            f.spec_frac_minsl(),
            f.spec_frac_minsh(),
            f.mins,
            f.hours,
            f.days,
            f.clk_cntrl,
        ) == f,
{
    let r = f.clk_rate;
    let v = f.frac_mins;
    assert(r & 0x7F == r && ((((v & 0xFF) as u8) as u16) | (((v >> 8) as u8 as u16) << 8)) == v)
        by (bit_vector)
        requires
            r < 0x80,
    ;
}

/// The range of function flags an immediate packet gives access to.
#[derive(Debug, Copy, Clone, PartialEq, Eq, Hash, Structural)]
pub enum ImFunctionType {
    /// Function flags 9 to 12.
    F9to12,
    /// Function flags 13 to 20.
    F13to20,
    /// Function flags 21 to 28.
    F21to28,
}

/// The address format used by an immediate packet.
#[derive(Debug, Copy, Clone, PartialEq, Eq, Hash, Structural)]
pub enum ImAddress {
    /// A short 8-bit address.
    Short(u8),
    /// A long 16-bit address.
    Long(u16),
}

/// The function-flag payload of an immediate packet.
#[derive(Debug, Copy, Clone, PartialEq, Eq, Hash, Structural)]
pub struct ImArg {
    /// Special address and bit information.
    pub dhi: u8,
    /// The address the function flags are set for.
    pub address: ImAddress,
    /// The range of function flags this arg can set.
    pub function_type: ImFunctionType,
    /// The function flag bits.
    pub function_bits: u8,
    /// An unused trailing byte.
    pub im5: u8,
}

impl ImArg {
    /// The function bits that the wire encoding of each address and range
    /// combination can carry; all other bits must be clear.
    pub open spec fn wf(self) -> bool {
        match self.address {
            ImAddress::Short(_) => match self.function_type {
                ImFunctionType::F9to12 => self.function_bits & 0xAF == 0,
                _ => self.function_bits & 0xA0 == 0,
            },
            ImAddress::Long(_) => match self.function_type {
                ImFunctionType::F9to12 => self.function_bits & 0xA0 == 0,
                _ => self.function_bits == 0,
            },
        }
    }

    /// The type byte of this packet.
    pub open spec fn spec_reps(self) -> u8 {
        match self.address {
            ImAddress::Short(_) => match self.function_type {
                ImFunctionType::F9to12 => 0x24u8,
                ImFunctionType::F13to20 => 0x34u8,
                ImFunctionType::F21to28 => 0x34u8,
            },
            ImAddress::Long(_) => match self.function_type {
                ImFunctionType::F9to12 => 0x34u8,
                ImFunctionType::F13to20 => 0x44u8,
                ImFunctionType::F21to28 => 0x44u8,
            },
        }
    }

    /// The first payload byte: the low address byte.
    pub open spec fn spec_im1(self) -> u8 {
        match self.address {
            ImAddress::Short(adr) => adr,
            ImAddress::Long(adr) => adr as u8,
        }
    }

    /// The second payload byte: for a short address the flag bits or a range
    /// selector, for a long address the high address byte.
    pub open spec fn spec_im2(self) -> u8 {
        match self.address {
            ImAddress::Short(_) => match self.function_type {
                ImFunctionType::F9to12 => (self.function_bits & 0x7F) | 0x20,
                ImFunctionType::F13to20 => 0x5Eu8,
                ImFunctionType::F21to28 => 0x5Fu8,
            },
            ImAddress::Long(adr) => (adr >> 8) as u8,
        }
    }

    /// The third payload byte: flag bits or a range selector, depending on
    /// the address format and range.
    pub open spec fn spec_im3(self) -> u8 {
        match self.address {
            ImAddress::Short(_) => match self.function_type {
                ImFunctionType::F9to12 => 0x00u8,
                _ => self.function_bits,
            },
            ImAddress::Long(_) => match self.function_type {
                ImFunctionType::F9to12 => (self.function_bits & 0x7F) | 0x20,
                ImFunctionType::F13to20 => 0x5Eu8,
                ImFunctionType::F21to28 => 0x5Fu8,
            },
        }
    }

    /// The fourth payload byte: the flag bits for a short address with a
    /// high flag range, zero otherwise.
    pub open spec fn spec_im4(self) -> u8 {
        if self.spec_reps() == 0x34 && self.function_type != ImFunctionType::F9to12 {
            self.function_bits
        } else {
            0x00u8
        }
    }

    /// The immediate-packet payload decoded from its wire bytes. The first
    /// byte of the wire payload is a constant and takes no part in decoding.
    pub open spec fn spec_parse(
        check: u8,
        reps: u8,
        dhi: u8,
        im1: u8,
        im2: u8,
        im3: u8,
        im4: u8,
        im5: u8,
    ) -> ImArg {
        if reps == 0x44 || (reps == 0x34 && (im3 & 0x20) == 0x20) {
            let function_type = if im3 == 0x5E {
                ImFunctionType::F13to20
            } else if im3 == 0x5F {
                ImFunctionType::F21to28
            } else {
                ImFunctionType::F9to12
            };
            ImArg {
                dhi,
                address: ImAddress::Long(((im2 as u16) << 8) | (im1 as u16)),
                function_type,
                function_bits: (match function_type {
                    ImFunctionType::F21to28 => im4,
                    ImFunctionType::F13to20 => im4,
                    ImFunctionType::F9to12 => im3 & !0x20,
                }) & 0x7F,
                im5,
            }
        } else {
            let function_type = if im2 == 0x5E {
                ImFunctionType::F13to20
            } else if im2 == 0x5F {
                ImFunctionType::F21to28
            } else {
                ImFunctionType::F9to12
            };
            ImArg {
                dhi,
                address: ImAddress::Short(im1),
                function_type,
                function_bits: (match function_type {
                    ImFunctionType::F13to20 => im3,
                    ImFunctionType::F21to28 => im3,
                    ImFunctionType::F9to12 => im2 & !0x2F,
                }) & 0x7F,
                im5,
            }
        }
    }

    /// Creates a new immediate-packet payload with no flag set.
    pub fn new(dhi: u8, address: ImAddress, function_type: ImFunctionType, im5: u8) -> (r: Self)
        ensures
            r == (ImArg { dhi, address, function_type, function_bits: 0x00u8, im5 }),
    {
        ImArg { dhi, address, function_type, function_bits: 0x00, im5 }
    }

    /// Decodes the immediate-packet payload from its wire bytes.
    pub(crate) fn parse(_check: u8, reps: u8, dhi: u8, im1: u8, im2: u8, im3: u8, im4: u8, im5: u8)
        -> (r: ImArg)
        ensures
            r == Self::spec_parse(_check, reps, dhi, im1, im2, im3, im4, im5),
    {
        if reps == 0x44 || (reps == 0x34 && (im3 & 0x20) == 0x20) {
            let address = ImAddress::Long(((im2 as u16) << 8) | (im1 as u16));

            let function_type = if im3 == 0x5E {
                ImFunctionType::F13to20
            } else if im3 == 0x5F {
                ImFunctionType::F21to28
            } else {
                ImFunctionType::F9to12
            };
            let mut function_bits = match function_type {
                ImFunctionType::F21to28 => im4,
                ImFunctionType::F13to20 => im4,
                ImFunctionType::F9to12 => im3 & !0x20,
            };

            function_bits &= 0x7F;

            Self { dhi, address, function_type, function_bits, im5 }
        } else {
            let address = ImAddress::Short(im1);

            let function_type = if im2 == 0x5E {
                ImFunctionType::F13to20
            } else if im2 == 0x5F {
                ImFunctionType::F21to28
            } else {
                ImFunctionType::F9to12
            };
            let mut function_bits = match function_type {
                ImFunctionType::F13to20 => im3,
                ImFunctionType::F21to28 => im3,
                ImFunctionType::F9to12 => im2 & !0x2F,
            };

            function_bits &= 0x7F;

            Self { dhi, address, function_type, function_bits, im5 }
        }
    }

    /// The type byte of this packet.
    pub(crate) fn reps(&self) -> (r: u8)
        ensures
            r == self.spec_reps(),
    {
        match self.address {
            ImAddress::Short(_) => match self.function_type {
                ImFunctionType::F9to12 => 0x24,
                ImFunctionType::F13to20 => 0x34,
                ImFunctionType::F21to28 => 0x34,
            },
            ImAddress::Long(_) => match self.function_type {
                ImFunctionType::F9to12 => 0x34,
                ImFunctionType::F13to20 => 0x44,
                ImFunctionType::F21to28 => 0x44,
            },
        }
    }

    /// The special address and bit information byte.
    pub fn dhi(&self) -> (r: u8)
        ensures
            r == self.dhi,
    {
        self.dhi
    }

    /// The address in its short or long format.
    pub fn address(&self) -> (r: ImAddress)
        ensures
            r == self.address,
    {
        self.address
    }

    /// The range of function flags this arg can set.
    pub fn function_type(&self) -> (r: ImFunctionType)
        ensures
            r == self.function_type,
    {
        self.function_type
    }

    /// The value of function flag `f_num`; the flag must lie in the range the
    /// stored flag bits are counted from.
    pub fn f(&self, f_num: u8) -> (r: bool)
        requires
            match self.function_type {
                ImFunctionType::F13to20 => 21 <= f_num < 29,
                ImFunctionType::F21to28 => 13 <= f_num < 21,
                ImFunctionType::F9to12 => 9 <= f_num < 17,
            },
        ensures
            r == ((self.function_bits >> ((f_num - match self.function_type {
                ImFunctionType::F13to20 => 21u8,
                ImFunctionType::F21to28 => 13u8,
                ImFunctionType::F9to12 => 9u8,
            }) as u8)) & 0x01 == 0x01),
    {
        let dist: u8 = match self.function_type {
            ImFunctionType::F13to20 => 21,
            ImFunctionType::F21to28 => 13,
            ImFunctionType::F9to12 => 9,
        };

        (self.function_bits >> (f_num - dist)) & 0x01 == 0x01
    }

    /// Sets function flag `f_num`; the flag must lie in the range the stored
    /// flag bits are counted from.
    pub fn set_f(&mut self, f_num: u8, f: bool)
        requires
            match old(self).function_type {
                ImFunctionType::F13to20 => 21 <= f_num < 29,
                ImFunctionType::F21to28 => 13 <= f_num < 21,
                ImFunctionType::F9to12 => 9 <= f_num < 17,
            },
        ensures
            *final(self) == (ImArg {
                function_bits: {
                    let mask = (0x01u8 << ((f_num - match old(self).function_type {
                        ImFunctionType::F13to20 => 21u8,
                        ImFunctionType::F21to28 => 13u8,
                        ImFunctionType::F9to12 => 9u8,
                    }) as u8)) as u8;
                    if f {
                        old(self).function_bits | mask
                    } else {
                        old(self).function_bits & !mask
                    }
                },
                ..*old(self)
            }),
    {
        let dist: u8 = match self.function_type {
            ImFunctionType::F13to20 => 21,
            ImFunctionType::F21to28 => 13,
            ImFunctionType::F9to12 => 9,
        };

        let mask: u8 = 0x01 << (f_num - dist);

        if f {
            self.function_bits |= mask;
        } else {
            self.function_bits &= !mask;
        }
    }

    /// The first payload byte.
    pub(crate) fn im1(&self) -> (r: u8)
        ensures
            r == self.spec_im1(),
    {
        match self.address {
            ImAddress::Short(adr) => adr,
            ImAddress::Long(adr) => adr as u8,
        }
    }

    /// The second payload byte.
    pub(crate) fn im2(&self) -> (r: u8)
        ensures
            r == self.spec_im2(),
    {
        match self.address {
            ImAddress::Short(_) => match self.function_type {
                ImFunctionType::F9to12 => (self.function_bits & 0x7F) | 0x20,
                ImFunctionType::F13to20 => 0x5E,
                ImFunctionType::F21to28 => 0x5F,
            },
            ImAddress::Long(adr) => (adr >> 8) as u8,
        }
    }

    /// The third payload byte.
    pub(crate) fn im3(&self) -> (r: u8)
        ensures
            r == self.spec_im3(),
    {
        match self.address {
            ImAddress::Short(_) => {
                if matches!(self.function_type, ImFunctionType::F9to12) {
                    0x00
                } else {
                    self.function_bits
                }
            },
            ImAddress::Long(_) => match self.function_type {
                ImFunctionType::F9to12 => (self.function_bits & 0x7F) | 0x20,
                ImFunctionType::F13to20 => 0x5E,
                ImFunctionType::F21to28 => 0x5F,
            },
        }
    }

    /// The fourth payload byte.
    pub(crate) fn im4(&self) -> (r: u8)
        ensures
            r == self.spec_im4(),
    {
        if self.reps() == 0x34 && !matches!(self.function_type, ImFunctionType::F9to12) {
            return self.function_bits;
        }
        0x00
    }

    /// The fifth payload byte.
    pub(crate) fn im5(&self) -> (r: u8)
        ensures
            r == self.im5,
    {
        self.im5
    }
}

/// A wire-legal immediate-packet payload survives the trip onto the wire and
/// back.
pub proof fn lemma_im_roundtrip(m: ImArg)
    requires
        m.wf(),
    ensures
        ImArg::spec_parse(
            0x7F,
            m.spec_reps(),
            m.dhi,
            m.spec_im1(),
            m.spec_im2(),
            m.spec_im3(),
            m.spec_im4(),
            m.im5,
        ) == m,
{
    let fb = m.function_bits;
    match m.address {
        ImAddress::Short(adr) => {
            match m.function_type {
                ImFunctionType::F9to12 => {
                    let i2 = (fb & 0x7F) | 0x20;
                    assert(i2 != 0x5E && i2 != 0x5F && (i2 & !0x2F) & 0x7F == fb) by (bit_vector)
                        requires
                            fb & 0xAF == 0,
                            i2 == (fb & 0x7F) | 0x20,
                    ;
                },
                _ => {
                    assert((fb & 0x20) != 0x20 && fb & 0x7F == fb) by (bit_vector)
                        requires
                            fb & 0xA0 == 0,
                    ;
                },
            }
        },
        ImAddress::Long(adr) => {
            match m.function_type {
                ImFunctionType::F9to12 => {
                    let i3 = (fb & 0x7F) | 0x20;
                    assert(i3 & 0x20 == 0x20 && i3 != 0x5E && i3 != 0x5F && (i3 & !0x20) & 0x7F
                        == fb && ((((adr >> 8) as u8) as u16) << 8) | ((adr as u8) as u16) == adr)
                        by (bit_vector)
                        requires
                            fb & 0xA0 == 0,
                            i3 == (fb & 0x7F) | 0x20,
                    ;
                },
                _ => {
                    assert(0x00u8 & 0x7F == 0x00 && ((((adr >> 8) as u8) as u16) << 8) | ((
                    adr as u8) as u16) == adr) by (bit_vector);
                },
            }
        },
    }
}

/// The destination slot of a peer-to-peer transfer.
#[derive(Debug, Copy, Clone, PartialEq, Eq, Hash, Structural)]
pub struct DstArg(pub u16);

impl DstArg {
    /// A destination fits in the fourteen bits its two 7-bit wire bytes carry.
    pub open spec fn wf(self) -> bool {
        self.0 < 0x4000
    }

    /// The seven least significant destination bits, as written to the wire.
    pub open spec fn spec_dst_low(self) -> u8 {
        (self.0 & 0x007F) as u8
    }

    /// The seven most significant destination bits, as written to the wire.
    pub open spec fn spec_dst_high(self) -> u8 {
        ((self.0 >> 7) & 0x007F) as u8
    }

    /// The destination decoded from its two wire bytes.
    pub open spec fn spec_parse(dst_low: u8, dst_high: u8) -> DstArg {
        DstArg(((dst_high as u16) << 7) | (dst_low as u16))
    }

    /// Creates a new destination. Values of `0x4000` and above cannot be
    /// represented on the wire and are truncated by `to_wire`.
    pub fn new(dst: u16) -> (r: Self)
        ensures
            r.0 == dst,
    {
        DstArg(dst)
    }

    /// Decodes the destination from its two wire bytes.
    pub(crate) fn parse(dst_low: u8, dst_high: u8) -> (r: Self)
        ensures
            r == Self::spec_parse(dst_low, dst_high),
    {
        DstArg(((dst_high as u16) << 7) | (dst_low as u16))
    }

    /// The destination of the transfer.
    pub fn dst(&self) -> (r: u16)
        ensures
            r == self.0,
    {
        self.0
    }

    /// The seven least significant destination bits.
    pub(crate) fn dst_low(&self) -> (r: u8)
        ensures
            r == self.spec_dst_low(),
    {
        (self.0 & 0x007F) as u8
    }

    /// The seven most significant destination bits.
    pub(crate) fn dst_high(&self) -> (r: u8)
        ensures
            r == self.spec_dst_high(),
    {
        ((self.0 >> 7) & 0x007F) as u8
    }
}

/// A wire-legal destination survives the trip onto the wire and back.
pub proof fn lemma_dst_roundtrip(d: DstArg)
    requires
        d.wf(),
    ensures
        DstArg::spec_parse(d.spec_dst_low(), d.spec_dst_high()) == d,
{
    let v = d.0;
    assert(((((v >> 7) & 0x007F) as u8 as u16) << 7) | ((v & 0x007F) as u8 as u16) == v)
        by (bit_vector)
        requires
            v < 0x4000,
    ;
}

/// Eight movable data bytes and their peer control bits.
#[derive(Debug, Copy, Clone, PartialEq, Eq, Hash, Structural)]
pub struct PxctData {
    /// The peer control value.
    pub pxc: u8,
    /// The first data byte.
    pub d1: u8,
    /// The second data byte.
    pub d2: u8,
    /// The third data byte.
    pub d3: u8,
    /// The fourth data byte.
    pub d4: u8,
    /// The fifth data byte.
    pub d5: u8,
    /// The sixth data byte.
    pub d6: u8,
    /// The seventh data byte.
    pub d7: u8,
    /// The eighth data byte.
    pub d8: u8,
}

impl PxctData {
    /// The peer control value fits in six bits, and each data byte in seven:
    /// the wire carries six bits in place and the seventh in a control byte.
    pub open spec fn wf(self) -> bool {
        self.pxc < 0x40 && self.d1 < 0x80 && self.d2 < 0x80 && self.d3 < 0x80 && self.d4 < 0x80
            && self.d5 < 0x80 && self.d6 < 0x80 && self.d7 < 0x80 && self.d8 < 0x80
    }

    /// The first peer control byte: the three low control bits and the high
    /// bit of each of the first four data bytes.
    pub open spec fn spec_pxct1(self) -> u8 {
        let a = (self.pxc & 0x07) << 4;
        let b = if self.d1 & 0x40 == 0x40 { a | 0x01 } else { a };
        let c = if self.d2 & 0x40 == 0x40 { b | 0x02 } else { b };
        let d = if self.d3 & 0x40 == 0x40 { c | 0x04 } else { c };
        if self.d4 & 0x40 == 0x40 { d | 0x08 } else { d }
    }

    /// The second peer control byte: the three high control bits and the high
    /// bit of each of the last four data bytes.
    pub open spec fn spec_pxct2(self) -> u8 {
        let a = (self.pxc & 0x78) << 1;
        let b = if self.d5 & 0x40 == 0x40 { a | 0x01 } else { a };
        let c = if self.d6 & 0x40 == 0x40 { b | 0x02 } else { b };
        let d = if self.d7 & 0x40 == 0x40 { c | 0x04 } else { c };
        if self.d8 & 0x40 == 0x40 { d | 0x08 } else { d }
    }

    /// The six low bits of data byte `d`, as written to the wire.
    pub open spec fn spec_low6(d: u8) -> u8 {
        d & 0x3F
    }

    /// The peer data decoded from its ten wire bytes.
    pub open spec fn spec_parse(
        pxct1: u8,
        d1: u8,
        d2: u8,
        d3: u8,
        d4: u8,
        pxct2: u8,
        d5: u8,
        d6: u8,
        d7: u8,
        d8: u8,
    ) -> PxctData {
        PxctData {
            pxc: ((pxct1 & 0x70) >> 4) | ((pxct2 & 0x70) >> 1),
            d1: d1 | ((pxct1 & 0x01) << 6),
            d2: d2 | ((pxct1 & 0x02) << 5),
            d3: d3 | ((pxct1 & 0x04) << 4),
            d4: d4 | ((pxct1 & 0x08) << 3),
            d5: d5 | ((pxct2 & 0x01) << 6),
            d6: d6 | ((pxct2 & 0x02) << 5),
            d7: d7 | ((pxct2 & 0x04) << 4),
            d8: d8 | ((pxct2 & 0x08) << 3),
        }
    }

    /// Creates new peer data.
    pub fn new(pxc: u8, d1: u8, d2: u8, d3: u8, d4: u8, d5: u8, d6: u8, d7: u8, d8: u8) -> (r: Self)
        ensures
            r == (PxctData { pxc, d1, d2, d3, d4, d5, d6, d7, d8 }),
    {
        PxctData { pxc, d1, d2, d3, d4, d5, d6, d7, d8 }
    }

    /// Decodes the peer data from its ten wire bytes.
    pub(crate) fn parse(
        pxct1: u8,
        d1: u8,
        d2: u8,
        d3: u8,
        d4: u8,
        pxct2: u8,
        d5: u8,
        d6: u8,
        d7: u8,
        d8: u8,
    ) -> (r: Self)
        ensures
            r == Self::spec_parse(pxct1, d1, d2, d3, d4, pxct2, d5, d6, d7, d8),
    {
        let pxc = ((pxct1 & 0x70) >> 4) | ((pxct2 & 0x70) >> 1);

        PxctData {
            pxc,
            d1: d1 | ((pxct1 & 0x01) << 6),
            d2: d2 | ((pxct1 & 0x02) << 5),
            d3: d3 | ((pxct1 & 0x04) << 4),
            d4: d4 | ((pxct1 & 0x08) << 3),
            d5: d5 | ((pxct2 & 0x01) << 6),
            d6: d6 | ((pxct2 & 0x02) << 5),
            d7: d7 | ((pxct2 & 0x04) << 4),
            d8: d8 | ((pxct2 & 0x08) << 3),
        }
    }

    /// The peer control value.
    pub fn pxc(&self) -> (r: u8)
        ensures
            r == self.pxc,
    {
        self.pxc
    }

    /// The first peer control byte.
    pub(crate) fn pxct1(&self) -> (r: u8)
        ensures
            r == self.spec_pxct1(),
    {
        let mut pxct1 = (self.pxc & 0x07) << 4;

        if self.d1 & 0x40 == 0x40 {
            pxct1 |= 0x01;
        }
        if self.d2 & 0x40 == 0x40 {
            pxct1 |= 0x02;
        }
        if self.d3 & 0x40 == 0x40 {
            pxct1 |= 0x04;
        }
        if self.d4 & 0x40 == 0x40 {
            pxct1 |= 0x08;
        }

        pxct1
    }

    /// The second peer control byte.
    pub(crate) fn pxct2(&self) -> (r: u8)
        ensures
            r == self.spec_pxct2(),
    {
        let mut pxct2 = (self.pxc & 0x78) << 1;

        if self.d5 & 0x40 == 0x40 {
            pxct2 |= 0x01;
        }
        if self.d6 & 0x40 == 0x40 {
            pxct2 |= 0x02;
        }
        if self.d7 & 0x40 == 0x40 {
            pxct2 |= 0x04;
        }
        if self.d8 & 0x40 == 0x40 {
            pxct2 |= 0x08;
        }

        pxct2
    }

    /// The six low bits of the first data byte.
    pub fn d1(&self) -> (r: u8)
        ensures
            r == Self::spec_low6(self.d1),
    {
        self.d1 & 0x3F
    }

    /// The six low bits of the second data byte.
    pub fn d2(&self) -> (r: u8)
        ensures
            r == Self::spec_low6(self.d2),
    {
        self.d2 & 0x3F
    }

    /// The six low bits of the third data byte.
    pub fn d3(&self) -> (r: u8)
        ensures
            r == Self::spec_low6(self.d3),
    {
        self.d3 & 0x3F
    }

    /// The six low bits of the fourth data byte.
    pub fn d4(&self) -> (r: u8)
        ensures
            r == Self::spec_low6(self.d4),
    {
        self.d4 & 0x3F
    }

    /// The six low bits of the fifth data byte.
    pub fn d5(&self) -> (r: u8)
        ensures
            r == Self::spec_low6(self.d5),
    {
        self.d5 & 0x3F
    }

    /// The six low bits of the sixth data byte.
    pub fn d6(&self) -> (r: u8)
        ensures
            r == Self::spec_low6(self.d6),
    {
        self.d6 & 0x3F
    }

    /// The six low bits of the seventh data byte.
    pub fn d7(&self) -> (r: u8)
        ensures
            r == Self::spec_low6(self.d7),
    {
        self.d7 & 0x3F
    }

    /// The six low bits of the eighth data byte.
    pub fn d8(&self) -> (r: u8)
        ensures
            r == Self::spec_low6(self.d8),
    {
        self.d8 & 0x3F
    }
}

/// Wire-legal peer data survives the trip onto the wire and back.
pub proof fn lemma_pxct_roundtrip(p: PxctData)
    requires
        p.wf(),
    ensures
        PxctData::spec_parse(
            p.spec_pxct1(),
            PxctData::spec_low6(p.d1),
            PxctData::spec_low6(p.d2),
            PxctData::spec_low6(p.d3),
            PxctData::spec_low6(p.d4),
            p.spec_pxct2(),
            PxctData::spec_low6(p.d5),
            PxctData::spec_low6(p.d6),
            PxctData::spec_low6(p.d7),
            PxctData::spec_low6(p.d8),
        ) == p,
{
    let pxc = p.pxc;
    let p1 = p.spec_pxct1();
    let p2 = p.spec_pxct2();
    let a1: u8 = (pxc & 0x07) << 4;
    let b1: u8 = if p.d1 & 0x40 == 0x40 { a1 | 0x01 } else { a1 };
    let c1: u8 = if p.d2 & 0x40 == 0x40 { b1 | 0x02 } else { b1 };
    let e1: u8 = if p.d3 & 0x40 == 0x40 { c1 | 0x04 } else { c1 };
    let a2: u8 = (pxc & 0x78) << 1;
    let b2: u8 = if p.d5 & 0x40 == 0x40 { a2 | 0x01 } else { a2 };
    let c2: u8 = if p.d6 & 0x40 == 0x40 { b2 | 0x02 } else { b2 };
    let e2: u8 = if p.d7 & 0x40 == 0x40 { c2 | 0x04 } else { c2 };
    let d1 = p.d1;
    let d2 = p.d2;
    let d3 = p.d3;
    let d4 = p.d4;
    let d5 = p.d5;
    let d6 = p.d6;
    let d7 = p.d7;
    let d8 = p.d8;
    assert(((p1 & 0x70) >> 4) | ((p2 & 0x70) >> 1) == pxc && (d1 & 0x3F) | ((p1 & 0x01) << 6) == d1
        && (d2 & 0x3F) | ((p1 & 0x02) << 5) == d2 && (d3 & 0x3F) | ((p1 & 0x04) << 4) == d3 && (d4
        & 0x3F) | ((p1 & 0x08) << 3) == d4 && (d5 & 0x3F) | ((p2 & 0x01) << 6) == d5 && (d6 & 0x3F)
        | ((p2 & 0x02) << 5) == d6 && (d7 & 0x3F) | ((p2 & 0x04) << 4) == d7 && (d8 & 0x3F) | ((p2
        & 0x08) << 3) == d8) by (bit_vector)
        requires
            pxc < 0x40,
            d1 < 0x80 && d2 < 0x80 && d3 < 0x80 && d4 < 0x80,
            d5 < 0x80 && d6 < 0x80 && d7 < 0x80 && d8 < 0x80,
            a1 == (pxc & 0x07) << 4,
            b1 == (if d1 & 0x40 == 0x40 { a1 | 0x01 } else { a1 }),
            c1 == (if d2 & 0x40 == 0x40 { b1 | 0x02 } else { b1 }),
            e1 == (if d3 & 0x40 == 0x40 { c1 | 0x04 } else { c1 }),
            p1 == (if d4 & 0x40 == 0x40 { e1 | 0x08 } else { e1 }),
            a2 == (pxc & 0x78) << 1,
            b2 == (if d5 & 0x40 == 0x40 { a2 | 0x01 } else { a2 }),
            c2 == (if d6 & 0x40 == 0x40 { b2 | 0x02 } else { b2 }),
            e2 == (if d7 & 0x40 == 0x40 { c2 | 0x04 } else { c2 }),
            p2 == (if d8 & 0x40 == 0x40 { e2 | 0x08 } else { e2 }),
    ;
}

/// The status report of a Lissy infrared detector.
#[derive(Debug, Copy, Clone, PartialEq, Eq, Hash, Structural)]
pub struct LissyIrReport {
    /// The sub-format selector of the report; zero for this format.
    pub arg1: u8,
    /// The direction of the detected movement.
    pub dir: bool,
    /// The reporting unit (up to thirteen bits).
    pub unit: u16,
    /// The detected address (up to fourteen bits).
    pub address: u16,
}

impl LissyIrReport {
    /// The selector must hold the value that names this format, and the unit
    /// and address must fit their wire bits.
    pub open spec fn wf(self) -> bool {
        self.arg1 == 0x00 && self.unit < 0x2000 && self.address < 0x4000
    }

    /// The report decoded from its five payload bytes.
    pub open spec fn spec_parse(arg1: u8, high_unit: u8, low_unit: u8, high_adr: u8, low_adr: u8)
        -> LissyIrReport {
        LissyIrReport {
            arg1,
            dir: high_unit & 0x40 == 0x40,
            unit: (((high_unit & 0x3F) as u16) << 7) | (low_unit as u16),
            address: (((high_adr & 0x7F) as u16) << 7) | (low_adr as u16),
        }
    }

    /// The report encoded as the body of a variable-length frame, without its
    /// checksum.
    pub open spec fn spec_to_message(self) -> Seq<u8> {
        let a = ((self.unit >> 7) as u8) & 0x3F;
        let high_unit = if self.dir { a | 0x40 } else { a };
        seq![
            0xE4u8,
            0x08u8,
            self.arg1,
            high_unit,
            (self.unit as u8) & 0x7F,
            ((self.address >> 7) as u8) & 0x7F,
            (self.address as u8) & 0x7F,
        ]
    }

    /// Creates a new report with the selector of this format.
    pub fn new(dir: bool, unit: u16, address: u16) -> (r: Self)
        ensures
            r == (LissyIrReport { arg1: 0x00u8, dir, unit, address }),
    {
        LissyIrReport { arg1: 0x00, dir, unit, address }
    }

    /// Decodes the report from its five payload bytes.
    pub(crate) fn parse(arg1: u8, high_unit: u8, low_unit: u8, high_adr: u8, low_adr: u8) -> (r:
        Self)
        ensures
            r == Self::spec_parse(arg1, high_unit, low_unit, high_adr, low_adr),
    {
        let dir = high_unit & 0x40 == 0x40;
        let unit = (((high_unit & 0x3F) as u16) << 7) | (low_unit as u16);
        let address = (((high_adr & 0x7F) as u16) << 7) | (low_adr as u16);

        LissyIrReport { arg1, dir, unit, address }
    }

    /// The report encoded as the body of a variable-length frame, without its
    /// checksum.
    pub(crate) fn to_message(self) -> (r: Vec<u8>)
        ensures
            r@ == self.spec_to_message(),
    {
        let mut high_unit = ((self.unit >> 7) as u8) & 0x3F;
        if self.dir {
            high_unit |= 0x40;
        }
        let low_unit = (self.unit as u8) & 0x7F;
        let high_adr = ((self.address >> 7) as u8) & 0x7F;
        let low_adr = (self.address as u8) & 0x7F;
        let r = vec![0xE4, 0x08, self.arg1, high_unit, low_unit, high_adr, low_adr];
        proof {
            assert(r@ =~= self.spec_to_message());
        }
        r
    }

    /// The sub-format selector byte.
    pub fn arg1(&self) -> (r: u8)
        ensures
            r == self.arg1,
    {
        self.arg1
    }

    /// The direction of the detected movement.
    pub fn dir(&self) -> (r: bool)
        ensures
            r == self.dir,
    {
        self.dir
    }

    /// The reporting unit.
    pub fn unit(&self) -> (r: u16)
        ensures
            r == self.unit,
    {
        self.unit
    }

    /// The detected address.
    pub fn address(&self) -> (r: u16)
        ensures
            r == self.address,
    {
        self.address
    }
}

/// A wire-legal Lissy report survives the trip onto the wire and back.
pub proof fn lemma_lissy_roundtrip(l: LissyIrReport)
    requires
        l.wf(),
    ensures
        ({
            let b = l.spec_to_message();
            LissyIrReport::spec_parse(b[2], b[3], b[4], b[5], b[6]) == l
        }),
{
    let u = l.unit;
    let v = l.address;
    let a: u8 = ((u >> 7) as u8) & 0x3F;
    let hu: u8 = if l.dir { a | 0x40 } else { a };
    assert(((hu & 0x40 == 0x40) <==> hu == a | 0x40) && a | 0x40 != a && (((hu & 0x3F) as u16) << 7)
        | (((u as u8) & 0x7F) as u16) == u && ((((((v >> 7) as u8) & 0x7F) & 0x7F) as u16) << 7) | (
    ((v as u8) & 0x7F) as u16) == v) by (bit_vector)
        requires
            u < 0x2000,
            v < 0x4000,
            a == ((u >> 7) as u8) & 0x3F,
            hu == a || hu == a | 0x40,
    ;
}

/// The report of an RFID reader carrying a five-byte RFID value.
#[derive(Debug, Copy, Clone, PartialEq, Eq, Hash, Structural)]
pub struct RFID5Report {
    /// The sub-format selector of the report; `0x41` for this format.
    pub arg1: u8,
    /// The address of the reporter (up to fourteen bits).
    pub address: u16,
    /// The first RFID byte.
    pub rfid0: u8,
    /// The second RFID byte.
    pub rfid1: u8,
    /// The third RFID byte.
    pub rfid2: u8,
    /// The fourth RFID byte.
    pub rfid3: u8,
    /// The fifth RFID byte.
    pub rfid4: u8,
    /// The high bits of the RFID bytes.
    pub rfid_hi: u8,
}

impl RFID5Report {
    /// The selector must hold the value that names this format, and the
    /// address must fit its wire bits.
    pub open spec fn wf(self) -> bool {
        self.arg1 == 0x41 && self.address < 0x4000
    }

    /// The report decoded from its nine payload bytes.
    pub open spec fn spec_parse(
        arg1: u8,
        high_adr: u8,
        low_adr: u8,
        rfid0: u8,
        rfid1: u8,
        rfid2: u8,
        rfid3: u8,
        rfid4: u8,
        rfid_hi: u8,
    ) -> RFID5Report {
        RFID5Report {
            arg1,
            address: (((high_adr & 0x7F) as u16) << 7) | (low_adr as u16),
            rfid0,
            rfid1,
            rfid2,
            rfid3,
            rfid4,
            rfid_hi,
        }
    }

    /// The report encoded as the body of a variable-length frame, without its
    /// checksum.
    pub open spec fn spec_to_message(self) -> Seq<u8> {
        seq![
            0xE4u8,
            0x0Cu8,
            self.arg1,
            ((self.address >> 7) as u8) & 0x7F,
            (self.address as u8) & 0x7F,
            self.rfid0,
            self.rfid1,
            self.rfid2,
            self.rfid3,
            self.rfid4,
            self.rfid_hi,
        ]
    }

    /// Creates a new report with the selector of this format.
    pub fn new(address: u16, rfid0: u8, rfid1: u8, rfid2: u8, rfid3: u8, rfid4: u8, rfid_hi: u8)
        -> (r: Self)
        ensures
            r == (RFID5Report { arg1: 0x41u8, address, rfid0, rfid1, rfid2, rfid3, rfid4, rfid_hi }),
    {
        RFID5Report { arg1: 0x41, address, rfid0, rfid1, rfid2, rfid3, rfid4, rfid_hi }
    }

    /// Decodes the report from its nine payload bytes.
    pub(crate) fn parse(
        arg1: u8,
        high_adr: u8,
        low_adr: u8,
        rfid0: u8,
        rfid1: u8,
        rfid2: u8,
        rfid3: u8,
        rfid4: u8,
        rfid_hi: u8,
    ) -> (r: Self)
        ensures
            r == Self::spec_parse(arg1, high_adr, low_adr, rfid0, rfid1, rfid2, rfid3, rfid4,
                rfid_hi),
    {
        let address = (((high_adr & 0x7F) as u16) << 7) | (low_adr as u16);
        RFID5Report { arg1, address, rfid0, rfid1, rfid2, rfid3, rfid4, rfid_hi }
    }

    /// The report encoded as the body of a variable-length frame, without its
    /// checksum.
    pub(crate) fn to_message(self) -> (r: Vec<u8>)
        ensures
            r@ == self.spec_to_message(),
    {
        let high_adr = ((self.address >> 7) as u8) & 0x7F;
        let low_adr = (self.address as u8) & 0x7F;
        let r = vec![
            0xE4,
            0x0C,
            self.arg1,
            high_adr,
            low_adr,
            self.rfid0,
            self.rfid1,
            self.rfid2,
            self.rfid3,
            self.rfid4,
            self.rfid_hi,
        ];
        proof {
            assert(r@ =~= self.spec_to_message());
        }
        r
    }

    /// The sub-format selector byte.
    pub fn arg1(&self) -> (r: u8)
        ensures
            r == self.arg1,
    {
        self.arg1
    }

    /// The address of the reporter.
    pub fn address(&self) -> (r: u16)
        ensures
            r == self.address,
    {
        self.address
    }

    /// The first RFID byte.
    pub fn rfid0(&self) -> (r: u8)
        ensures
            r == self.rfid0,
    {
        self.rfid0
    }

    /// The second RFID byte.
    pub fn rfid1(&self) -> (r: u8)
        ensures
            r == self.rfid1,
    {
        self.rfid1
    }

    /// The third RFID byte.
    pub fn rfid2(&self) -> (r: u8)
        ensures
            r == self.rfid2,
    {
        self.rfid2
    }

    /// The fourth RFID byte.
    pub fn rfid3(&self) -> (r: u8)
        ensures
            r == self.rfid3,
    {
        self.rfid3
    }

    /// The fifth RFID byte.
    pub fn rfid4(&self) -> (r: u8)
        ensures
            r == self.rfid4,
    {
        self.rfid4
    }

    /// The high bits of the RFID bytes.
    pub fn rfid_hi(&self) -> (r: u8)
        ensures
            r == self.rfid_hi,
    {
        self.rfid_hi
    }
}

/// A wire-legal five-byte RFID report survives the trip onto the wire and
/// back.
pub proof fn lemma_rfid5_roundtrip(t: RFID5Report)
    requires
        t.wf(),
    ensures
        ({
            let b = t.spec_to_message();
            RFID5Report::spec_parse(b[2], b[3], b[4], b[5], b[6], b[7], b[8], b[9], b[10]) == t
        }),
{
    let v = t.address;
    assert(((((((v >> 7) as u8) & 0x7F) & 0x7F) as u16) << 7) | (((v as u8) & 0x7F) as u16) == v)
        by (bit_vector)
        requires
            v < 0x4000,
    ;
}

/// The report of an RFID reader carrying a seven-byte RFID value.
#[derive(Debug, Copy, Clone, PartialEq, Eq, Hash, Structural)]
pub struct RFID7Report {
    /// The sub-format selector of the report; `0x41` for this format.
    pub arg1: u8,
    /// The address of the reporter (up to fourteen bits).
    pub address: u16,
    /// The first RFID byte.
    pub rfid0: u8,
    /// The second RFID byte.
    pub rfid1: u8,
    /// The third RFID byte.
    pub rfid2: u8,
    /// The fourth RFID byte.
    pub rfid3: u8,
    /// The fifth RFID byte.
    pub rfid4: u8,
    /// The sixth RFID byte.
    pub rfid5: u8,
    /// The seventh RFID byte.
    pub rfid6: u8,
    /// The high bits of the RFID bytes.
    pub rfid_hi: u8,
}

impl RFID7Report {
    /// The selector must hold the value that names this format, and the
    /// address must fit its wire bits.
    pub open spec fn wf(self) -> bool {
        self.arg1 == 0x41 && self.address < 0x4000
    }

    /// The report decoded from its eleven payload bytes.
    pub open spec fn spec_parse(
        arg1: u8,
        high_adr: u8,
        low_adr: u8,
        rfid0: u8,
        rfid1: u8,
        rfid2: u8,
        rfid3: u8,
        rfid4: u8,
        rfid5: u8,
        rfid6: u8,
        rfid_hi: u8,
    ) -> RFID7Report {
        RFID7Report {
            arg1,
            address: (((high_adr & 0x7F) as u16) << 7) | (low_adr as u16),
            rfid0,
            rfid1,
            rfid2,
            rfid3,
            rfid4,
            rfid5,
            rfid6,
            rfid_hi,
        }
    }

    /// The report encoded as the body of a variable-length frame, without its
    /// checksum.
    pub open spec fn spec_to_message(self) -> Seq<u8> {
        seq![
            0xE4u8,
            0x0Eu8,
            self.arg1,
            ((self.address >> 7) as u8) & 0x7F,
            (self.address as u8) & 0x7F,
            self.rfid0,
            self.rfid1,
            self.rfid2,
            self.rfid3,
            self.rfid4,
            self.rfid5,
            self.rfid6,
            self.rfid_hi,
        ]
    }

    /// Creates a new report with the selector of this format.
    pub fn new(
        address: u16,
        rfid0: u8,
        rfid1: u8,
        rfid2: u8,
        rfid3: u8,
        rfid4: u8,
        rfid5: u8,
        rfid6: u8,
        rfid_hi: u8,
    ) -> (r: Self)
        ensures
            r == (RFID7Report {
                arg1: 0x41u8,
                address,
                rfid0,
                rfid1,
                rfid2,
                rfid3,
                rfid4,
                rfid5,
                rfid6,
                rfid_hi,
            }),
    {
        RFID7Report { arg1: 0x41, address, rfid0, rfid1, rfid2, rfid3, rfid4, rfid5, rfid6, rfid_hi }
    }

    /// Decodes the report from its eleven payload bytes.
    pub(crate) fn parse(
        arg1: u8,
        high_adr: u8,
        low_adr: u8,
        rfid0: u8,
        rfid1: u8,
        rfid2: u8,
        rfid3: u8,
        rfid4: u8,
        rfid5: u8,
        rfid6: u8,
        rfid_hi: u8,
    ) -> (r: Self)
        ensures
            r == Self::spec_parse(arg1, high_adr, low_adr, rfid0, rfid1, rfid2, rfid3, rfid4, rfid5,
                rfid6, rfid_hi),
    {
        let address = (((high_adr & 0x7F) as u16) << 7) | (low_adr as u16);
        RFID7Report { arg1, address, rfid0, rfid1, rfid2, rfid3, rfid4, rfid5, rfid6, rfid_hi }
    }

    /// The report encoded as the body of a variable-length frame, without its
    /// checksum.
    pub(crate) fn to_message(self) -> (r: Vec<u8>)
        ensures
            r@ == self.spec_to_message(),
    {
        let high_adr = ((self.address >> 7) as u8) & 0x7F;
        let low_adr = (self.address as u8) & 0x7F;
        let r = vec![
            0xE4,
            0x0E,
            self.arg1,
            high_adr,
            low_adr,
            self.rfid0,
            self.rfid1,
            self.rfid2,
            self.rfid3,
            self.rfid4,
            self.rfid5,
            self.rfid6,
            self.rfid_hi,
        ];
        proof {
            assert(r@ =~= self.spec_to_message());
        }
        r
    }

    /// The sub-format selector byte.
    pub fn arg1(&self) -> (r: u8)
        ensures
            r == self.arg1,
    {
        self.arg1
    }

    /// The address of the reporter.
    pub fn address(&self) -> (r: u16)
        ensures
            r == self.address,
    {
        self.address
    }

    /// The first RFID byte.
    pub fn rfid0(&self) -> (r: u8)
        ensures
            r == self.rfid0,
    {
        self.rfid0
    }

    /// The second RFID byte.
    pub fn rfid1(&self) -> (r: u8)
        ensures
            r == self.rfid1,
    {
        self.rfid1
    }

    /// The third RFID byte.
    pub fn rfid2(&self) -> (r: u8)
        ensures
            r == self.rfid2,
    {
        self.rfid2
    }

    /// The fourth RFID byte.
    pub fn rfid3(&self) -> (r: u8)
        ensures
            r == self.rfid3,
    {
        self.rfid3
    }

    /// The fifth RFID byte.
    pub fn rfid4(&self) -> (r: u8)
        ensures
            r == self.rfid4,
    {
        self.rfid4
    }

    /// The sixth RFID byte.
    pub fn rfid5(&self) -> (r: u8)
        ensures
            r == self.rfid5,
    {
        self.rfid5
    }

    /// The seventh RFID byte.
    pub fn rfid6(&self) -> (r: u8)
        ensures
            r == self.rfid6,
    {
        self.rfid6
    }

    /// The high bits of the RFID bytes.
    pub fn rfid_hi(&self) -> (r: u8)
        ensures
            r == self.rfid_hi,
    {
        self.rfid_hi
    }
}

/// A wire-legal seven-byte RFID report survives the trip onto the wire and
/// back.
pub proof fn lemma_rfid7_roundtrip(t: RFID7Report)
    requires
        t.wf(),
    ensures
        ({
            let b = t.spec_to_message();
            RFID7Report::spec_parse(
                b[2],
                b[3],
                b[4],
                b[5],
                b[6],
                b[7],
                b[8],
                b[9],
                b[10],
                b[11],
                b[12],
            ) == t
        }),
{
    let v = t.address;
    assert(((((((v >> 7) as u8) & 0x7F) & 0x7F) as u16) << 7) | (((v as u8) & 0x7F) as u16) == v)
        by (bit_vector)
        requires
            v < 0x4000,
    ;
}

/// The report of a wheel counter.
#[derive(Debug, Copy, Clone, PartialEq, Eq, Hash, Structural)]
pub struct WheelcntReport {
    /// The sub-format selector of the report; `0x40` for this format.
    pub arg1: u8,
    /// The reporting unit (up to thirteen bits).
    pub unit: u16,
    /// The direction of the counted movement.
    pub direction: bool,
    /// The counted wheels (up to fourteen bits).
    pub count: u16,
}

impl WheelcntReport {
    /// The selector must hold the value that names this format, and the unit
    /// and count must fit their wire bits.
    pub open spec fn wf(self) -> bool {
        self.arg1 == 0x40 && self.unit < 0x2000 && self.count < 0x4000
    }

    /// The report decoded from its five payload bytes.
    pub open spec fn spec_parse(arg1: u8, high_unit: u8, low_unit: u8, high_count: u8,
        low_count: u8) -> WheelcntReport {
        WheelcntReport {
            arg1,
            unit: (((high_unit & 0x3F) as u16) << 7) | (low_unit as u16),
            direction: high_unit & 0x40 == 0x40,
            count: ((high_count as u16) << 7) | (low_count as u16),
        }
    }

    /// The report encoded as the body of a variable-length frame, without its
    /// checksum.
    pub open spec fn spec_to_message(self) -> Seq<u8> {
        let a = ((self.unit >> 7) as u8) & 0x3F;
        let high_unit = if self.direction { a | 0x40 } else { a };
        seq![
            0xE4u8,
            0x08u8,
            self.arg1,
            high_unit,
            (self.unit as u8) & 0x7F,
            ((self.count >> 7) as u8) & 0x7F,
            (self.count as u8) & 0x7F,
        ]
    }

    /// Creates a new report with the selector of this format.
    pub fn new(unit: u16, direction: bool, count: u16) -> (r: Self)
        ensures
            r == (WheelcntReport { arg1: 0x40u8, unit, direction, count }),
    {
        WheelcntReport { arg1: 0x40, unit, direction, count }
    }

    /// Decodes the report from its five payload bytes.
    pub(crate) fn parse(arg1: u8, high_unit: u8, low_unit: u8, high_count: u8, low_count: u8) -> (r:
        Self)
        ensures
            r == Self::spec_parse(arg1, high_unit, low_unit, high_count, low_count),
    {
        let count = ((high_count as u16) << 7) | (low_count as u16);
        let direction = high_unit & 0x40 == 0x40;
        let unit = (((high_unit & 0x3F) as u16) << 7) | (low_unit as u16);
        WheelcntReport { arg1, unit, direction, count }
    }

    /// The report encoded as the body of a variable-length frame, without its
    /// checksum.
    pub(crate) fn to_message(self) -> (r: Vec<u8>)
        ensures
            r@ == self.spec_to_message(),
    {
        let mut high_unit = ((self.unit >> 7) as u8) & 0x3F;
        if self.direction {
            high_unit |= 0x40;
        }
        let low_unit = (self.unit as u8) & 0x7F;
        let high_count = ((self.count >> 7) as u8) & 0x7F;
        let low_count = (self.count as u8) & 0x7F;
        let r = vec![0xE4, 0x08, self.arg1, high_unit, low_unit, high_count, low_count];
        proof {
            assert(r@ =~= self.spec_to_message());
        }
        r
    }

    /// The sub-format selector byte.
    pub fn arg1(&self) -> (r: u8)
        ensures
            r == self.arg1,
    {
        self.arg1
    }

    /// The reporting unit.
    pub fn unit(&self) -> (r: u16)
        ensures
            r == self.unit,
    {
        self.unit
    }

    /// The counted wheels.
    pub fn count(&self) -> (r: u16)
        ensures
            r == self.count,
    {
        self.count
    }

    /// The direction of the counted movement.
    pub fn direction(&self) -> (r: bool)
        ensures
            r == self.direction,
    {
        self.direction
    }
}

/// A wire-legal wheel-counter report survives the trip onto the wire and back.
pub proof fn lemma_wheelcnt_roundtrip(w: WheelcntReport)
    requires
        w.wf(),
    ensures
        ({
            let b = w.spec_to_message();
            WheelcntReport::spec_parse(b[2], b[3], b[4], b[5], b[6]) == w
        }),
{
    let u = w.unit;
    let v = w.count;
    let a: u8 = ((u >> 7) as u8) & 0x3F;
    let hu: u8 = if w.direction { a | 0x40 } else { a };
    assert(((hu & 0x40 == 0x40) <==> hu == a | 0x40) && a | 0x40 != a && (((hu & 0x3F) as u16) << 7)
        | (((u as u8) & 0x7F) as u16) == u && (((((v >> 7) as u8) & 0x7F) as u16) << 7) | (((
    v as u8) & 0x7F) as u16) == v) by (bit_vector)
        requires
            u < 0x2000,
            v < 0x4000,
            a == ((u >> 7) as u8) & 0x3F,
            hu == a || hu == a | 0x40,
    ;
}

/// A detector report: one of four sub-formats selected by the leading payload
/// byte and the declared frame length.
#[derive(Debug, Copy, Clone, PartialEq, Eq, Hash, Structural)]
pub enum RepStructure {
    /// A Lissy infrared report.
    LissyIrReport(LissyIrReport),
    /// A five-byte RFID report.
    RFID5Report(RFID5Report),
    /// A seven-byte RFID report.
    RFID7Report(RFID7Report),
    /// A wheel-counter report.
    WheelcntReport(WheelcntReport),
}

impl RepStructure {
    /// The embedded report is wire-legal, and its declared length matches its
    /// sub-format.
    pub open spec fn wf(self) -> bool {
        match self {
            RepStructure::LissyIrReport(r) => r.wf(),
            RepStructure::RFID5Report(r) => r.wf(),
            RepStructure::RFID7Report(r) => r.wf(),
            RepStructure::WheelcntReport(r) => r.wf(),
        }
    }

    /// The report decoded from the declared frame length and the payload
    /// bytes that follow the length byte. The leading payload byte selects
    /// the sub-format; a selector with no defined mapping for the declared
    /// length is a fault.
    pub open spec fn spec_parse(count: u8, args: Seq<u8>) -> Result<RepStructure,
        crate::error::ParseFault> {
        if args[0] == 0x00 {
            if count != 0x08 {
                Err(crate::error::ParseFault::UnexpectedEnd(0xE4))
            } else {
                Ok(
                    RepStructure::LissyIrReport(
                        LissyIrReport::spec_parse(args[0], args[1], args[2], args[3], args[4]),
                    ),
                )
            }
        } else if args[0] == 0x40 {
            if count != 0x08 {
                Err(crate::error::ParseFault::UnexpectedEnd(0xE4))
            } else {
                Ok(
                    RepStructure::WheelcntReport(
                        WheelcntReport::spec_parse(args[0], args[1], args[2], args[3], args[4]),
                    ),
                )
            }
        } else if args[0] == 0x41 && count == 0x0C {
            Ok(
                RepStructure::RFID5Report(
                    RFID5Report::spec_parse(
                        args[0],
                        args[1],
                        args[2],
                        args[3],
                        args[4],
                        args[5],
                        args[6],
                        args[7],
                        args[8],
                    ),
                ),
            )
        } else if args[0] == 0x41 && count == 0x0E {
            Ok(
                RepStructure::RFID7Report(
                    RFID7Report::spec_parse(
                        args[0],
                        args[1],
                        args[2],
                        args[3],
                        args[4],
                        args[5],
                        args[6],
                        args[7],
                        args[8],
                        args[9],
                        args[10],
                    ),
                ),
            )
        } else {
            Err(crate::error::ParseFault::InvalidFormat)
        }
    }

    /// Decodes the report from the declared frame length and the payload
    /// bytes that follow the length byte.
    pub(crate) fn parse(count: u8, args: &[u8]) -> (r: Result<Self,
        crate::error::MessageParseError>)
        requires
            args@.len() >= 1,
            args@.len() + 3 == count as int,
        ensures
            crate::error::parse_result_matches(r, Self::spec_parse(count, args@)),
    {
        if args[0] == 0x00 {
            if count != 0x08 {
                Err(crate::error::MessageParseError::UnexpectedEnd(0xE4))
            } else {
                Ok(
                    Self::LissyIrReport(
                        LissyIrReport::parse(args[0], args[1], args[2], args[3], args[4]),
                    ),
                )
            }
        } else if args[0] == 0x40 {
            if count != 0x08 {
                Err(crate::error::MessageParseError::UnexpectedEnd(0xE4))
            } else {
                Ok(
                    Self::WheelcntReport(
                        WheelcntReport::parse(args[0], args[1], args[2], args[3], args[4]),
                    ),
                )
            }
        } else if args[0] == 0x41 && count == 0x0C {
            Ok(
                Self::RFID5Report(
                    RFID5Report::parse(
                        args[0],
                        args[1],
                        args[2],
                        args[3],
                        args[4],
                        args[5],
                        args[6],
                        args[7],
                        args[8],
                    ),
                ),
            )
        } else if args[0] == 0x41 && count == 0x0E {
            Ok(
                Self::RFID7Report(
                    RFID7Report::parse(
                        args[0],
                        args[1],
                        args[2],
                        args[3],
                        args[4],
                        args[5],
                        args[6],
                        args[7],
                        args[8],
                        args[9],
                        args[10],
                    ),
                ),
            )
        } else {
            Err(
                crate::error::MessageParseError::InvalidFormat(
                    "the detector report has no defined sub-format for its selector and length".to_owned(),
                ),
            )
        }
    }
}

/// The payload byte at index `i`, or zero where the payload is shorter.
pub open spec fn spec_arg_or_zero(args: Seq<u8>, i: int) -> u8 {
    if 0 <= i < args.len() {
        args[i]
    } else {
        0x00u8
    }
}

/// The payload byte at index `i`, or zero where the payload is shorter.
fn arg_or_zero(args: &[u8], i: usize) -> (r: u8)
    ensures
        r == spec_arg_or_zero(args@, i as int),
{
    if i < args.len() {
        args[i]
    } else {
        0x00
    }
}

/// The report sent when the programming service mode is aborted. Its payload
/// has no decoded structure: the bytes are carried as they stand, in one of
/// two lengths.
#[derive(Debug, Copy, Clone, PartialEq, Eq, Hash, Structural)]
pub struct ProgrammingAbortedArg {
    /// The declared length of the frame: `0x10` or `0x15`.
    pub arg_len: u8,
    /// The first payload byte.
    pub arg01: u8,
    /// The second payload byte.
    pub arg02: u8,
    /// The third payload byte.
    pub arg03: u8,
    /// The fourth payload byte.
    pub arg04: u8,
    /// The fifth payload byte.
    pub arg05: u8,
    /// The sixth payload byte.
    pub arg06: u8,
    /// The seventh payload byte.
    pub arg07: u8,
    /// The eighth payload byte.
    pub arg08: u8,
    /// The ninth payload byte.
    pub arg09: u8,
    /// The tenth payload byte.
    pub arg10: u8,
    /// The eleventh payload byte.
    pub arg11: u8,
    /// The twelfth payload byte.
    pub arg12: u8,
    /// The thirteenth payload byte.
    pub arg13: u8,
    /// The fourteenth payload byte; zero in the short format.
    pub arg14: u8,
    /// The fifteenth payload byte; zero in the short format.
    pub arg15: u8,
    /// The sixteenth payload byte; zero in the short format.
    pub arg16: u8,
    /// The seventeenth payload byte; zero in the short format.
    pub arg17: u8,
    /// The eighteenth payload byte; zero in the short format.
    pub arg18: u8,
}

impl ProgrammingAbortedArg {
    /// The declared length names one of the two defined formats, and the
    /// bytes the short format cannot carry are clear.
    pub open spec fn wf(self) -> bool {
        match self.arg_len {
            0x10 => self.arg14 == 0 && self.arg15 == 0 && self.arg16 == 0 && self.arg17 == 0
                && self.arg18 == 0,
            0x15 => true,
            _ => false,
        }
    }

    /// The report decoded from its declared length and the payload bytes that
    /// follow the length byte; bytes the payload does not hold read as zero.
    pub open spec fn spec_parse(len: u8, args: Seq<u8>) -> ProgrammingAbortedArg {
        ProgrammingAbortedArg {
            arg_len: len,
            arg01: spec_arg_or_zero(args, 0),
            arg02: spec_arg_or_zero(args, 1),
            arg03: spec_arg_or_zero(args, 2),
            arg04: spec_arg_or_zero(args, 3),
            arg05: spec_arg_or_zero(args, 4),
            arg06: spec_arg_or_zero(args, 5),
            arg07: spec_arg_or_zero(args, 6),
            arg08: spec_arg_or_zero(args, 7),
            arg09: spec_arg_or_zero(args, 8),
            arg10: spec_arg_or_zero(args, 9),
            arg11: spec_arg_or_zero(args, 10),
            arg12: spec_arg_or_zero(args, 11),
            arg13: spec_arg_or_zero(args, 12),
            arg14: if len == 0x10 {
                0x00u8
            } else {
                spec_arg_or_zero(args, 13)
            },
            arg15: if len == 0x10 {
                0x00u8
            } else {
                spec_arg_or_zero(args, 14)
            },
            arg16: if len == 0x10 {
                0x00u8
            } else {
                spec_arg_or_zero(args, 15)
            },
            arg17: if len == 0x10 {
                0x00u8
            } else {
                spec_arg_or_zero(args, 16)
            },
            arg18: if len == 0x10 {
                0x00u8
            } else {
                spec_arg_or_zero(args, 17)
            },
        }
    }

    /// The report encoded as the body of a variable-length frame, without its
    /// checksum: the short format for a declared length of `0x10`, the long
    /// format otherwise.
    pub open spec fn spec_to_message(self) -> Seq<u8> {
        if self.arg_len == 0x10 {
            seq![
                0xE6u8,
                0x10u8,
                self.arg01,
                self.arg02,
                self.arg03,
                self.arg04,
                self.arg05,
                self.arg06,
                self.arg07,
                self.arg08,
                self.arg09,
                self.arg10,
                self.arg11,
                self.arg12,
                self.arg13,
            ]
        } else {
            seq![
                0xE6u8,
                0x15u8,
                self.arg01,
                self.arg02,
                self.arg03,
                self.arg04,
                self.arg05,
                self.arg06,
                self.arg07,
                self.arg08,
                self.arg09,
                self.arg10,
                self.arg11,
                self.arg12,
                self.arg13,
                self.arg14,
                self.arg15,
                self.arg16,
                self.arg17,
                self.arg18,
            ]
        }
    }

    /// Creates a new service-mode-aborted report from its declared length and
    /// payload; bytes the payload does not hold read as zero.
    pub fn new(len: u8, args: &[u8]) -> (r: Self)
        ensures
            r == Self::spec_parse(len, args@),
    {
        ProgrammingAbortedArg::parse(len, args)
    }

    /// Decodes the report from its declared length and the payload bytes that
    /// follow the length byte.
    pub(crate) fn parse(len: u8, args: &[u8]) -> (r: Self)
        ensures
            r == Self::spec_parse(len, args@),
    {
        if len == 0x10 {
            ProgrammingAbortedArg {
                arg_len: len,
                arg01: arg_or_zero(args, 0),
                arg02: arg_or_zero(args, 1),
                arg03: arg_or_zero(args, 2),
                arg04: arg_or_zero(args, 3),
                arg05: arg_or_zero(args, 4),
                arg06: arg_or_zero(args, 5),
                arg07: arg_or_zero(args, 6),
                arg08: arg_or_zero(args, 7),
                arg09: arg_or_zero(args, 8),
                arg10: arg_or_zero(args, 9),
                arg11: arg_or_zero(args, 10),
                arg12: arg_or_zero(args, 11),
                arg13: arg_or_zero(args, 12),
                arg14: 0,
                arg15: 0,
                arg16: 0,
                arg17: 0,
                arg18: 0,
            }
        } else {
            ProgrammingAbortedArg {
                arg_len: len,
                arg01: arg_or_zero(args, 0),
                arg02: arg_or_zero(args, 1),
                arg03: arg_or_zero(args, 2),
                arg04: arg_or_zero(args, 3),
                arg05: arg_or_zero(args, 4),
                arg06: arg_or_zero(args, 5),
                arg07: arg_or_zero(args, 6),
                arg08: arg_or_zero(args, 7),
                arg09: arg_or_zero(args, 8),
                arg10: arg_or_zero(args, 9),
                arg11: arg_or_zero(args, 10),
                arg12: arg_or_zero(args, 11),
                arg13: arg_or_zero(args, 12),
                arg14: arg_or_zero(args, 13),
                arg15: arg_or_zero(args, 14),
                arg16: arg_or_zero(args, 15),
                arg17: arg_or_zero(args, 16),
                arg18: arg_or_zero(args, 17),
            }
        }
    }

    /// The report encoded as the body of a variable-length frame, without its
    /// checksum.
    pub(crate) fn to_message(self) -> (r: Vec<u8>)
        ensures
            r@ == self.spec_to_message(),
    {
        if self.arg_len == 0x10 {
            let r = vec![
                0xE6, 0x10, self.arg01, self.arg02, self.arg03, self.arg04, self.arg05, self.arg06,
                self.arg07, self.arg08, self.arg09, self.arg10, self.arg11, self.arg12, self.arg13,
            ];
            proof {
                assert(r@ =~= self.spec_to_message());
            }
            r
        } else {
            let r = vec![
                0xE6, 0x15, self.arg01, self.arg02, self.arg03, self.arg04, self.arg05, self.arg06,
                self.arg07, self.arg08, self.arg09, self.arg10, self.arg11, self.arg12, self.arg13,
                self.arg14, self.arg15, self.arg16, self.arg17, self.arg18,
            ];
            proof {
                assert(r@ =~= self.spec_to_message());
            }
            r
        }
    }
}

/// The payload written to a slot: clock synchronisation, programming-track
/// data, or the general slot data, selected by the slot byte.
#[derive(Debug, Copy, Clone, PartialEq, Eq, Hash, Structural)]
pub enum WrSlDataStructure {
    /// Clock synchronisation data: the clock, the track status and the id of
    /// the writing device.
    DataTime(FastClock, TrkArg, IdArg),
    /// Programming-track data: the programming command, the operation-mode
    /// address bits, the track status and the control variable with its data.
    DataPt(Pcmd, AddressArg, TrkArg, CvDataArg),
    /// General slot data: the slot, its two status bytes, the address, the
    /// speed, the direction and function bits, the track status, the sound
    /// bits and the id of the writing device.
    DataGeneral(
        SlotArg,
        Stat1Arg,
        Stat2Arg,
        AddressArg,
        SpeedArg,
        DirfArg,
        TrkArg,
        SndArg,
        IdArg,
    ),
}

impl WrSlDataStructure {
    /// Every embedded codec value is wire-legal, and for general slot data
    /// the slot number is none of the two numbers that select the special
    /// formats.
    pub open spec fn wf(self) -> bool {
        match self {
            WrSlDataStructure::DataTime(clock, _, id) => clock.wf() && id.wf(),
            WrSlDataStructure::DataPt(_, adr, _, cv) => adr.wf() && cv.wf(),
            WrSlDataStructure::DataGeneral(slot, _, _, adr, spd, dirf, _, snd, id) => slot.wf()
                && slot.0 != 0x7B && slot.0 != 0x7C && adr.wf() && spd.wf() && dirf.wf() && snd.wf()
                && id.wf(),
        }
    }

    /// The payload decoded from its eleven wire bytes, selected by the first:
    /// a slot status whose decoder bits have no defined mapping is a fault.
    pub open spec fn spec_parse(
        arg1: u8,
        arg2: u8,
        arg3: u8,
        arg4: u8,
        arg5: u8,
        arg6: u8,
        arg7: u8,
        arg8: u8,
        arg9: u8,
        arg10: u8,
        arg11: u8,
    ) -> Result<WrSlDataStructure, crate::error::ParseFault> {
        if arg1 == 0x7C {
            Ok(
                WrSlDataStructure::DataPt(
                    Pcmd::spec_parse(arg2),
                    AddressArg::spec_parse(arg4, arg5),
                    TrkArg::spec_parse(arg6),
                    CvDataArg::spec_parse(arg7, arg8, arg9),
                ),
            )
        } else if arg1 == 0x7B {
            Ok(
                WrSlDataStructure::DataTime(
                    FastClock::spec_parse(arg2, arg3, arg4, arg5, arg7, arg8, arg9),
                    TrkArg::spec_parse(arg6),
                    IdArg::spec_parse(arg10, arg11),
                ),
            )
        } else {
            match Stat1Arg::spec_parse(arg2) {
                None => Err(crate::error::ParseFault::InvalidFormat),
                Some(stat1) => Ok(
                    WrSlDataStructure::DataGeneral(
                        SlotArg::spec_parse(arg1),
                        stat1,
                        Stat2Arg::spec_parse(arg7),
                        AddressArg::spec_parse(arg8, arg3),
                        SpeedArg::spec_parse(arg4),
                        DirfArg::spec_parse(arg5),
                        TrkArg::spec_parse(arg6),
                        SndArg::spec_parse(arg9),
                        IdArg::spec_parse(arg10, arg11),
                    ),
                ),
            }
        }
    }

    /// The payload encoded as the body of a variable-length frame, without
    /// its checksum.
    pub open spec fn spec_to_message(self) -> Seq<u8> {
        match self {
            WrSlDataStructure::DataPt(pcmd, adr, trk, cv_data) => seq![
                0xEFu8,
                0x0Eu8,
                0x7Cu8,
                pcmd.spec_pcmd(),
                0x00u8,
                adr.spec_adr2(),
                adr.spec_adr1(),
                trk.spec_trk_arg(),
                cv_data.spec_cvh(),
                cv_data.spec_cvl(),
                cv_data.spec_data7(),
                0x00u8,
                0x00u8,
            ],
            WrSlDataStructure::DataTime(fast_clock, trk, id) => seq![
                0xEFu8,
                0x0Eu8,
                0x7Bu8,
                fast_clock.clk_rate,
                fast_clock.spec_frac_minsl(),
                fast_clock.spec_frac_minsh(),
                fast_clock.mins,
                trk.spec_trk_arg(),
                fast_clock.hours,
                fast_clock.days,
                fast_clock.clk_cntrl,
                id.spec_id1(),
                id.spec_id2(),
            ],
            WrSlDataStructure::DataGeneral(slot, stat1, stat2, adr, speed, dirf, trk, sound, id) => seq![
                0xEFu8,
                0x0Eu8,
                slot.0,
                stat1.spec_stat1(),
                adr.spec_adr1(),
                speed.spec_spd(),
                dirf.0,
                trk.spec_trk_arg(),
                stat2.spec_stat2(),
                adr.spec_adr2(),
                sound.0,
                id.spec_id1(),
                id.spec_id2(),
            ],
        }
    }

    /// Decodes the payload from its eleven wire bytes.
    pub(crate) fn parse(
        arg1: u8,
        arg2: u8,
        arg3: u8,
        arg4: u8,
        arg5: u8,
        arg6: u8,
        arg7: u8,
        arg8: u8,
        arg9: u8,
        arg10: u8,
        arg11: u8,
    ) -> (r: Result<Self, crate::error::MessageParseError>)
        ensures
            crate::error::parse_result_matches(
                r,
                Self::spec_parse(
                    arg1,
                    arg2,
                    arg3,
                    arg4,
                    arg5,
                    arg6,
                    arg7,
                    arg8,
                    arg9,
                    arg10,
                    arg11,
                ),
            ),
    {
        if arg1 == 0x7C {
            Ok(
                WrSlDataStructure::DataPt(
                    Pcmd::parse(arg2),
                    AddressArg::parse(arg4, arg5),
                    TrkArg::parse(arg6),
                    CvDataArg::parse(arg7, arg8, arg9),
                ),
            )
        } else if arg1 == 0x7B {
            Ok(
                WrSlDataStructure::DataTime(
                    FastClock::parse(arg2, arg3, arg4, arg5, arg7, arg8, arg9),
                    TrkArg::parse(arg6),
                    IdArg::parse(arg10, arg11),
                ),
            )
        } else {
            match Stat1Arg::parse(arg2) {
                None => Err(
                    crate::error::MessageParseError::InvalidFormat(
                        "the slot status carries a decoder type with no defined mapping".to_owned(),
                    ),
                ),
                Some(stat1) => Ok(
                    WrSlDataStructure::DataGeneral(
                        SlotArg::parse(arg1),
                        stat1,
                        Stat2Arg::parse(arg7),
                        AddressArg::parse(arg8, arg3),
                        SpeedArg::parse(arg4),
                        DirfArg::parse(arg5),
                        TrkArg::parse(arg6),
                        SndArg::parse(arg9),
                        IdArg::parse(arg10, arg11),
                    ),
                ),
            }
        }
    }

    /// The slot byte that selects the format of this payload.
    pub fn slot_type(&self) -> (r: u8)
        ensures
            r == match *self {
                WrSlDataStructure::DataPt(..) => 0x7Cu8,
                WrSlDataStructure::DataTime(..) => 0x7Bu8,
                WrSlDataStructure::DataGeneral(slot, ..) => slot.0,
            },
    {
        match self {
            WrSlDataStructure::DataPt(..) => 0x7C,
            WrSlDataStructure::DataTime(..) => 0x7B,
            WrSlDataStructure::DataGeneral(slot, ..) => slot.slot(),
        }
    }

    /// The payload encoded as the body of a variable-length frame, without
    /// its checksum.
    pub(crate) fn to_message(self) -> (r: Vec<u8>)
        ensures
            r@ == self.spec_to_message(),
    {
        match self {
            WrSlDataStructure::DataPt(pcmd, adr, trk, cv_data) => {
                let r = vec![
                    0xEF,
                    0x0E,
                    0x7C,
                    pcmd.pcmd(),
                    0x00,
                    adr.adr2(),
                    adr.adr1(),
                    trk.trk_arg(),
                    cv_data.cvh(),
                    cv_data.cvl(),
                    cv_data.data7(),
                    0x00,
                    0x00,
                ];
                proof {
                    assert(r@ =~= self.spec_to_message());
                }
                r
            },
            WrSlDataStructure::DataTime(fast_clock, trk, id) => {
                let r = vec![
                    0xEF,
                    0x0E,
                    0x7B,
                    fast_clock.clk_rate(),
                    fast_clock.frac_minsl(),
                    fast_clock.frac_minsh(),
                    fast_clock.mins(),
                    trk.trk_arg(),
                    fast_clock.hours(),
                    fast_clock.days(),
                    fast_clock.clk_cntrl(),
                    id.id1(),
                    id.id2(),
                ];
                proof {
                    assert(r@ =~= self.spec_to_message());
                }
                r
            },
            WrSlDataStructure::DataGeneral(slot, stat1, stat2, adr, speed, dirf, trk, sound, id) => {
                let r = vec![
                    0xEF,
                    0x0E,
                    slot.slot(),
                    stat1.stat1(),
                    adr.adr1(),
                    speed.spd(),
                    dirf.dirf(),
                    trk.trk_arg(),
                    stat2.stat2(),
                    adr.adr2(),
                    sound.snd(),
                    id.id1(),
                    id.id2(),
                ];
                proof {
                    assert(r@ =~= self.spec_to_message());
                }
                r
            },
        }
    }
}

/// A wire-legal slot-write payload survives the trip onto the wire and back.
pub proof fn lemma_wr_sl_data_roundtrip(w: WrSlDataStructure)
    requires
        w.wf(),
    ensures
        ({
            let b = w.spec_to_message();
            WrSlDataStructure::spec_parse(
                b[2],
                b[3],
                b[4],
                b[5],
                b[6],
                b[7],
                b[8],
                b[9],
                b[10],
                b[11],
                b[12],
            ) == Ok::<WrSlDataStructure, crate::error::ParseFault>(w)
        }),
{
    match w {
        WrSlDataStructure::DataPt(pcmd, adr, trk, cv_data) => {
            lemma_pcmd_roundtrip(pcmd);
            lemma_address_roundtrip(adr);
            lemma_trk_roundtrip(trk);
            lemma_cv_data_roundtrip(cv_data);
        },
        WrSlDataStructure::DataTime(fast_clock, trk, id) => {
            lemma_fast_clock_roundtrip(fast_clock);
            lemma_trk_roundtrip(trk);
            lemma_id_roundtrip(id);
        },
        WrSlDataStructure::DataGeneral(slot, stat1, stat2, adr, speed, dirf, trk, sound, id) => {
            lemma_slot_roundtrip(slot);
            lemma_stat1_roundtrip(stat1);
            lemma_stat2_roundtrip(stat2);
            lemma_address_roundtrip(adr);
            lemma_speed_roundtrip(speed);
            lemma_dirf_roundtrip(dirf);
            lemma_trk_roundtrip(trk);
            lemma_snd_roundtrip(sound);
            lemma_id_roundtrip(id);
        },
    }
}

} // verus!
