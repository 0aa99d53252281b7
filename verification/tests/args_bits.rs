use locodrive::args::{
    Ack1Arg, AddressArg, FastClock, FunctionArg, FunctionGroup, ImAddress, ImArg, ImFunctionType,
    InArg, SensorLevel, SourceType, TrkArg,
};

/// The function-group codec multiplexes four disjoint flag ranges onto one
/// payload byte; the active group decides which flags exist at all.
#[test]
fn function_arg_groups_multiplex_the_flag_byte() {
    let mut f9 = FunctionArg::new(FunctionGroup::F9TO11);
    assert_eq!(f9.function_group(), FunctionGroup::F9TO11);
    f9.set_f(9, true);
    f9.set_f(11, true);
    assert!(f9.f(9));
    assert!(!f9.f(10));
    assert!(f9.f(11));
    // Flags of other groups do not exist under this group selector.
    assert!(!f9.f(13));
    assert!(!f9.f(21));

    let mut f13 = FunctionArg::new(FunctionGroup::F13TO19);
    assert_eq!(f13.function_group(), FunctionGroup::F13TO19);
    f13.set_f(13, true);
    f13.set_f(19, true);
    assert!(f13.f(13));
    assert!(!f13.f(16));
    assert!(f13.f(19));
    assert!(!f13.f(9));

    let mut f21 = FunctionArg::new(FunctionGroup::F21TO27);
    assert_eq!(f21.function_group(), FunctionGroup::F21TO27);
    f21.set_f(21, true);
    f21.set_f(27, true);
    assert!(f21.f(21));
    assert!(!f21.f(24));
    assert!(f21.f(27));

    let mut f12 = FunctionArg::new(FunctionGroup::F12F20F28);
    assert_eq!(f12.function_group(), FunctionGroup::F12F20F28);
    f12.set_f(12, true);
    f12.set_f(28, true);
    assert!(f12.f(12));
    assert!(!f12.f(20));
    assert!(f12.f(28));
    assert!(!f12.f(13));
    f12.set_f(12, false);
    assert!(!f12.f(12));
    f12.set_f(20, true);
    assert!(f12.f(20));
}

/// The sensor address with the source type folded into its lowest bit.
#[test]
fn in_arg_ds54_addressing() {
    let mut input = InArg::new(10, SourceType::Switch, SensorLevel::High, false);
    assert_eq!(input.address_ds54(), 21);

    input.set_address_ds54(20);
    assert_eq!(input.address(), 10);
    assert_eq!(input.input_source(), SourceType::Ds54Aux);
    assert_eq!(input.address_ds54(), 20);

    // An address above eleven bits is ignored.
    input.set_address(0x0900);
    assert_eq!(input.address(), 10);
    input.set_address(0x07FF);
    assert_eq!(input.address(), 0x07FF);

    input.set_sensor_level(SensorLevel::Low);
    assert_eq!(input.sensor_level(), SensorLevel::Low);
    input.set_control_bit(true);
    assert!(input.control_bit());
    input.set_input_source(SourceType::Switch);
    assert_eq!(input.input_source(), SourceType::Switch);
}

/// The acknowledgment code byte names the outcome of the answered request.
#[test]
fn ack1_outcomes() {
    assert!(Ack1Arg::new(true).success());
    assert!(Ack1Arg::new(false).failed());
    assert!(!Ack1Arg::new(false).limited_success());
    assert!(Ack1Arg::new_advanced(0x01).accepted());
    assert!(Ack1Arg::new_advanced(0x40).accepted_blind());
    assert!(Ack1Arg::new_advanced(0x01).limited_success());
    // The code is masked to its seven wire bits.
    assert_eq!(Ack1Arg::new_advanced(0xFF).ack1(), 0x7F);
}

/// The fast clock carries its counters through unchanged and exposes them.
#[test]
fn fast_clock_accessors() {
    let clock = FastClock::new(12, 0x1234, 2, 12, 22, 0x30);
    assert_eq!(clock.clk_rate(), 12);
    assert_eq!(clock.frac_mins(), 0x1234);
    assert_eq!(clock.mins(), 2);
    assert_eq!(clock.hours(), 12);
    assert_eq!(clock.days(), 22);
    assert_eq!(clock.clk_cntrl(), 0x30);
}

/// The immediate-packet flags are counted from the base of their range.
#[test]
fn im_arg_flags() {
    let mut im = ImArg::new(0, ImAddress::Short(12), ImFunctionType::F9to12, 0);
    assert_eq!(im.function_type(), ImFunctionType::F9to12);
    assert_eq!(im.address(), ImAddress::Short(12));
    assert_eq!(im.dhi(), 0);
    im.set_f(10, true);
    assert!(im.f(10));
    assert!(!im.f(9));
    im.set_f(10, false);
    assert!(!im.f(10));
}

/// The track status byte folds its four flags into the four low bits.
#[test]
fn trk_accessors() {
    let trk = TrkArg::new(true, false, true, false);
    assert!(trk.power_on());
    assert!(!trk.track_idle());
    assert!(trk.mlok1());
    assert!(!trk.prog_busy());
}

/// The loco address is carried whole and can be replaced.
#[test]
fn address_accessors() {
    let mut adr = AddressArg::new(16000);
    assert_eq!(adr.address(), 16000);
    adr.set_address(3);
    assert_eq!(adr.address(), 3);
}
