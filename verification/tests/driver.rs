use is31fl3193::{
    ADPin, BreathingMode, Channel, Command, IS31FL3193Error, Intensity, Marking, Mode, Transport,
    IS31FL3193, T0, T1, T2, T3, T4,
};

/// What the bus of these tests reports: the number of the write it refused,
/// counted from 1.
#[derive(Clone, Copy, Debug, PartialEq, Eq)]
struct Refused(usize);

/// A bus that keeps every write it is handed and refuses the one whose
/// number is `refuse`.
#[derive(Clone, Debug)]
struct Bus {
    writes: Vec<(u8, Vec<u8>)>,
    refuse: Option<usize>,
}

impl Bus {
    fn new() -> Bus {
        Bus { writes: Vec::new(), refuse: None }
    }

    fn refusing(n: usize) -> Bus {
        Bus { writes: Vec::new(), refuse: Some(n) }
    }

    fn frames(&self) -> Vec<(u8, u8)> {
        self.writes
            .iter()
            .map(|(_, bytes)| {
                assert_eq!(bytes.len(), 2);
                (bytes[0], bytes[1])
            })
            .collect()
    }
}

impl Transport for Bus {
    type Error = Refused;

    fn write(&mut self, address: u8, bytes: &[u8]) -> Result<(), Refused> {
        self.writes.push((address, bytes.to_vec()));
        if self.refuse == Some(self.writes.len()) {
            Err(Refused(self.writes.len()))
        } else {
            Ok(())
        }
    }
}

fn driver() -> IS31FL3193<Bus> {
    IS31FL3193::new(Bus::new(), ADPin::ToGND)
}

fn refusing(n: usize) -> IS31FL3193<Bus> {
    IS31FL3193::new(Bus::refusing(n), ADPin::ToGND)
}

#[test]
fn each_strap_has_its_own_address() {
    let pins = [
        (ADPin::ToGND, 0x68u8),
        (ADPin::ToVCC, 0x6B),
        (ADPin::ToSCL, 0x69),
        (ADPin::ToSDA, 0x6A),
    ];
    for (pin, address) in pins {
        let mut driver = IS31FL3193::new(Bus::new(), pin);
        driver.set_pwm(1, 2, 3).unwrap();
        driver.shutdown(true, false).unwrap();
        let bus = driver.release();
        assert_eq!(bus.writes.len(), 5);
        for (to, _) in &bus.writes {
            assert_eq!(*to, address);
        }
    }
}

#[test]
fn strap_addresses_are_the_write_addresses_halved() {
    let pins = [
        (ADPin::ToGND, 0xD0u8),
        (ADPin::ToVCC, 0xD6),
        (ADPin::ToSCL, 0xD2),
        (ADPin::ToSDA, 0xD4),
    ];
    for (pin, write_address) in pins {
        let mut driver = IS31FL3193::new(Bus::new(), pin);
        driver.send(Command::Reset).unwrap();
        assert_eq!(driver.release().writes[0].0, write_address >> 1);
    }
}

#[test]
fn two_drivers_on_one_strap_share_the_address() {
    let mut first = IS31FL3193::new(Bus::new(), ADPin::ToSCL);
    let mut second = IS31FL3193::new(Bus::refusing(1), ADPin::ToSCL);
    first.set_max_current(Intensity::MA5).unwrap();
    assert!(second.set_mode(Mode::PWM).is_err());
    assert_eq!(first.release().writes[0].0, second.release().writes[0].0);
}

#[test]
fn release_gives_the_bus_back_untouched() {
    let bus = IS31FL3193::new(Bus::refusing(7), ADPin::ToVCC).release();
    assert!(bus.writes.is_empty());
    assert_eq!(bus.refuse, Some(7));
}

#[test]
fn set_max_current_writes_one_frame() {
    let mut driver = driver();
    assert_eq!(driver.set_max_current(Intensity::MA30), Ok(()));
    assert_eq!(driver.release().frames(), vec![(0x03, 0x0C)]);
}

#[test]
fn set_pwm_writes_three_duties_then_the_latch() {
    let mut driver = driver();
    assert_eq!(driver.set_pwm(10, 20, 30), Ok(()));
    assert_eq!(
        driver.release().frames(),
        vec![(0x04, 10), (0x05, 20), (0x06, 30), (0x07, 0)]
    );
}

#[test]
fn set_pwm_led1_writes_channel_one() {
    let mut driver = driver();
    assert_eq!(driver.set_pwm_led1(77), Ok(()));
    assert_eq!(driver.release().frames(), vec![(0x04, 77), (0x07, 0)]);
}

#[test]
fn set_pwm_led2_writes_channel_two() {
    let mut driver = driver();
    assert_eq!(driver.set_pwm_led2(78), Ok(()));
    assert_eq!(driver.release().frames(), vec![(0x05, 78), (0x07, 0)]);
}

#[test]
fn set_pwm_led3_writes_channel_three() {
    let mut driver = driver();
    assert_eq!(driver.set_pwm_led3(79), Ok(()));
    assert_eq!(driver.release().frames(), vec![(0x06, 79), (0x07, 0)]);
}

#[test]
fn set_timing_writes_three_phases_then_the_latch() {
    let mut driver = driver();
    assert_eq!(
        driver.set_timing(Channel::Led2, T0::MS260, T1::MS130, T2::MS0, T3::MS130, T4::MS0),
        Ok(())
    );
    assert_eq!(
        driver.release().frames(),
        vec![(0x0B, 2 << 4), (0x11, 0 << 5 | 0 << 1), (0x17, 0 | 0 << 1), (0x1C, 0)]
    );
}

#[test]
fn set_timing_addresses_the_registers_of_its_channel() {
    let channels = [
        (Channel::Led1, 0x0Au8, 0x10u8, 0x16u8),
        (Channel::Led2, 0x0B, 0x11, 0x17),
        (Channel::Led3, 0x0C, 0x12, 0x18),
    ];
    for (channel, t0, t1t2, t3t4) in channels {
        let mut driver = driver();
        driver
            .set_timing(channel, T0::MS66560, T1::MS2080, T2::MS520, T3::MS16640, T4::MS33280)
            .unwrap();
        assert_eq!(
            driver.release().frames(),
            vec![(t0, 10 << 4), (t1t2, 4 << 5 | 3 << 1), (t3t4, 7 << 5 | 9 << 1), (0x1C, 0)]
        );
    }
}

#[test]
fn set_mode_pwm_writes_the_mode_register_alone() {
    let mut driver = driver();
    assert_eq!(driver.set_mode(Mode::PWM), Ok(()));
    assert_eq!(driver.release().frames(), vec![(0x02, 0x00)]);
}

#[test]
fn set_mode_breath_writes_mode_then_breathing_control() {
    let cases = [
        (BreathingMode::Auto, Marking::Off, 0x00u8),
        (BreathingMode::Auto, Marking::On(Channel::Led1), 0x04),
        (BreathingMode::Auto, Marking::On(Channel::Led2), 0x05),
        (BreathingMode::Auto, Marking::On(Channel::Led3), 0x06),
        (BreathingMode::OneCycle, Marking::Off, 0x30),
        (BreathingMode::OneCycle, Marking::On(Channel::Led1), 0x34),
        (BreathingMode::OneCycle, Marking::On(Channel::Led2), 0x35),
        (BreathingMode::OneCycle, Marking::On(Channel::Led3), 0x36),
        (BreathingMode::RampToOn, Marking::Off, 0x20),
        (BreathingMode::RampToOn, Marking::On(Channel::Led1), 0x24),
        (BreathingMode::RampToOn, Marking::On(Channel::Led2), 0x25),
        (BreathingMode::RampToOn, Marking::On(Channel::Led3), 0x26),
    ];
    for (breathing, marking, control) in cases {
        let mut driver = driver();
        assert_eq!(driver.set_mode(Mode::Breath(breathing, marking)), Ok(()));
        assert_eq!(driver.release().frames(), vec![(0x02, 0x20), (0x01, control)]);
    }
}

#[test]
fn shutdown_writes_one_frame() {
    let cases = [
        (false, false, 0x00u8),
        (false, true, 0x01),
        (true, false, 0x20),
        (true, true, 0x21),
    ];
    for (enable, shutdown, payload) in cases {
        let mut driver = driver();
        assert_eq!(driver.shutdown(enable, shutdown), Ok(()));
        assert_eq!(driver.release().frames(), vec![(0x00, payload)]);
    }
}

#[test]
fn send_writes_the_frame_of_the_command() {
    let mut driver = driver();
    assert_eq!(driver.send(Command::Power(true, false, true)), Ok(()));
    assert_eq!(driver.send(Command::T0Led3(T0::MS1040)), Ok(()));
    assert_eq!(driver.release().frames(), vec![(0x1D, 0x05), (0x0C, 0x40)]);
}

#[test]
fn reset_frame_does_not_depend_on_what_came_before() {
    let mut fresh = driver();
    fresh.send(Command::Reset).unwrap();
    assert_eq!(fresh.release().frames(), vec![(0x2F, 0)]);

    let mut used = IS31FL3193::new(Bus::new(), ADPin::ToSDA);
    used.set_max_current(Intensity::MA42).unwrap();
    used.set_pwm(255, 0, 128).unwrap();
    used.set_mode(Mode::Breath(BreathingMode::RampToOn, Marking::On(Channel::Led2))).unwrap();
    used.shutdown(true, true).unwrap();
    used.send(Command::Reset).unwrap();
    let frames = used.release().frames();
    assert_eq!(frames.len(), 9);
    assert_eq!(frames[8], (0x2F, 0));
}

#[test]
fn a_failure_on_the_second_frame_stops_set_pwm() {
    let mut driver = refusing(2);
    assert_eq!(driver.set_pwm(10, 20, 30), Err(IS31FL3193Error::I2c(Refused(2))));
    assert_eq!(driver.release().frames(), vec![(0x04, 10), (0x05, 20)]);
}

#[test]
fn set_pwm_stops_at_whichever_frame_fails() {
    let all = vec![(0x04u8, 1u8), (0x05, 2), (0x06, 3), (0x07, 0)];
    for n in 1..=4usize {
        let mut driver = refusing(n);
        assert_eq!(driver.set_pwm(1, 2, 3), Err(IS31FL3193Error::I2c(Refused(n))));
        assert_eq!(driver.release().frames(), all[..n].to_vec());
    }
}

#[test]
fn the_latch_is_not_written_after_a_failed_duty() {
    for n in 1..=3usize {
        let mut driver = refusing(n);
        assert!(driver.set_pwm(9, 8, 7).is_err());
        assert!(driver.release().frames().iter().all(|frame| frame.0 != 0x07));
    }
    let mut driver = refusing(1);
    assert!(driver.set_pwm_led3(5).is_err());
    assert_eq!(driver.release().frames(), vec![(0x06, 5)]);
}

#[test]
fn set_timing_stops_at_whichever_frame_fails() {
    let all = vec![(0x0Cu8, 0x10u8), (0x12, 0x22), (0x18, 0x44), (0x1C, 0)];
    for n in 1..=4usize {
        let mut driver = refusing(n);
        assert_eq!(
            driver.set_timing(Channel::Led3, T0::MS130, T1::MS260, T2::MS130, T3::MS520, T4::MS260),
            Err(IS31FL3193Error::I2c(Refused(n)))
        );
        assert_eq!(driver.release().frames(), all[..n].to_vec());
    }
}

#[test]
fn set_mode_does_not_write_breathing_control_after_a_failed_mode_write() {
    let mut driver = refusing(1);
    assert_eq!(
        driver.set_mode(Mode::Breath(BreathingMode::OneCycle, Marking::Off)),
        Err(IS31FL3193Error::I2c(Refused(1)))
    );
    assert_eq!(driver.release().frames(), vec![(0x02, 0x20)]);

    let mut driver = refusing(2);
    assert_eq!(
        driver.set_mode(Mode::Breath(BreathingMode::OneCycle, Marking::Off)),
        Err(IS31FL3193Error::I2c(Refused(2)))
    );
    assert_eq!(driver.release().frames(), vec![(0x02, 0x20), (0x01, 0x30)]);
}

#[test]
fn single_frame_operations_report_the_error_of_the_bus() {
    assert_eq!(
        refusing(1).set_max_current(Intensity::MA10),
        Err(IS31FL3193Error::I2c(Refused(1)))
    );
    assert_eq!(refusing(1).shutdown(false, true), Err(IS31FL3193Error::I2c(Refused(1))));
    assert_eq!(refusing(1).set_mode(Mode::PWM), Err(IS31FL3193Error::I2c(Refused(1))));
    assert_eq!(refusing(1).send(Command::PWMUpdate), Err(IS31FL3193Error::I2c(Refused(1))));
}

#[test]
fn a_failed_operation_is_not_retried_and_the_next_one_starts_over() {
    let mut driver = refusing(3);
    assert!(driver.set_pwm(1, 2, 3).is_err());
    assert_eq!(driver.set_pwm(4, 5, 6), Ok(()));
    assert_eq!(
        driver.release().frames(),
        vec![(0x04, 1), (0x05, 2), (0x06, 3), (0x04, 4), (0x05, 5), (0x06, 6), (0x07, 0)]
    );
}

#[test]
fn the_driver_keeps_no_copy_of_the_registers() {
    let mut driver = driver();
    driver.set_pwm_led1(42).unwrap();
    driver.set_pwm_led1(42).unwrap();
    assert_eq!(
        driver.release().frames(),
        vec![(0x04, 42), (0x07, 0), (0x04, 42), (0x07, 0)]
    );
}

#[test]
fn from_bus_wraps_the_error_and_nothing_else() {
    assert_eq!(IS31FL3193Error::<Refused>::from_bus(Ok(())), Ok(()));
    assert_eq!(
        IS31FL3193Error::from_bus(Err(Refused(5))),
        Err(IS31FL3193Error::I2c(Refused(5)))
    );
}

#[test]
fn a_copied_driver_writes_to_the_same_address() {
    #[derive(Clone, Copy)]
    struct Quiet;
    impl Transport for Quiet {
        type Error = (u8, u8, u8);

        fn write(&mut self, address: u8, bytes: &[u8]) -> Result<(), (u8, u8, u8)> {
            Err((address, bytes[0], bytes[1]))
        }
    }
    let mut first = IS31FL3193::new(Quiet, ADPin::ToVCC);
    let mut second = first;
    assert_eq!(first.send(Command::Reset), Err(IS31FL3193Error::I2c((0x6B, 0x2F, 0))));
    assert_eq!(second.set_pwm_led2(9), Err(IS31FL3193Error::I2c((0x6B, 0x05, 9))));
}
