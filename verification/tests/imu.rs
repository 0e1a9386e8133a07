use spi_sensors::bus::{Hertz, SpiBusError};
use spi_sensors::imu::registers::{AccelerometerRange, GyroscopeRange, WhoAmI};
use spi_sensors::imu::{
    acceleration, angular_rate, be_i16, IMUReading, ImuState, MPU6500Error, Pending, ACCEL_RANGE, GYRO_RANGE, MPU6500,
};
use spi_sensors::operation::{Action, Event, Step};
use spi_sensors::units::Ratio;

/// A bus that answers from a script and keeps what it was asked, in the
/// order in which it was asked.
struct MockBus {
    identity: u8,
    burst: Vec<u8>,
    fail_at: Option<(usize, SpiBusError)>,
    log: Vec<String>,
}

impl MockBus {
    fn new(identity: u8) -> Self {
        MockBus { identity, burst: vec![0; 15], fail_at: None, log: Vec::new() }
    }

    fn perform(&mut self, action: &Action) -> Event {
        let at = self.log.len();
        match action {
            Action::Transfer(transfer) => {
                let command = transfer.write[0];
                if transfer.write.len() == 15 {
                    assert_eq!(transfer.frequency, Hertz(20_000_000));
                    self.log.push(format!("burst {:#04x}", command));
                } else {
                    assert_eq!(transfer.write.len(), 2);
                    assert_eq!(transfer.frequency, Hertz(1_000_000));
                    if command & 0x80 != 0 {
                        assert_eq!(transfer.write[1], 0);
                        self.log.push(format!("read {:#04x}", command & 0x7f));
                    } else {
                        self.log.push(format!("write {:#04x} {:#04x}", command, transfer.write[1]));
                    }
                }
                match self.fail_at {
                    Some((index, error)) if index == at => Event::Transferred(Err(error)),
                    _ if transfer.write.len() == 15 => Event::Transferred(Ok(self.burst.clone())),
                    _ => Event::Transferred(Ok(vec![0, self.identity])),
                }
            }
            Action::Sleep { millis } => {
                self.log.push(format!("sleep {}", millis));
                Event::Elapsed
            }
        }
    }
}

fn run_reset(imu: &mut MPU6500, bus: &mut MockBus) -> Result<(), MPU6500Error> {
    let mut step = imu.reset();
    loop {
        match step {
            Step::Perform(action) => {
                let event = bus.perform(&action);
                assert!(imu.expects(&event));
                step = imu.resume_reset(event).unwrap();
            }
            Step::Finished(result) => return result,
        }
    }
}

fn run_read(imu: &mut MPU6500, bus: &mut MockBus, timestamp: u64) -> Result<IMUReading, MPU6500Error> {
    let mut step = imu.read(timestamp);
    loop {
        match step {
            Step::Perform(action) => {
                let event = bus.perform(&action);
                assert!(imu.expects(&event));
                step = imu.resume_read(event).unwrap();
            }
            Step::Finished(result) => return result,
        }
    }
}

fn value(ratio: Ratio) -> f64 {
    ratio.numerator as f64 / ratio.denominator as f64
}

#[test]
fn a_new_driver_is_uninitialized() {
    let imu = MPU6500::new();
    assert_eq!(imu.state(), ImuState::Uninitialized);
    assert_eq!(imu.pending(), Pending::Idle);
    assert!(imu.action().is_none());
    assert!(!imu.expects(&Event::Elapsed));
}

#[test]
fn wait_for_power_on_is_a_wait_of_100_ms() {
    let mut imu = MPU6500::new();
    let step = imu.wait_for_power_on();
    assert!(matches!(step, Step::Perform(Action::Sleep { millis: 100 })));
    assert_eq!(imu.state(), ImuState::PoweringOn);
    assert_eq!(imu.pending(), Pending::PowerOn);
    assert!(imu.expects(&Event::Elapsed));
    assert!(!imu.expects(&Event::Transferred(Ok(vec![0, 0]))));
    let step = imu.resume_power_on(Event::Elapsed);
    assert!(matches!(step, Some(Step::Finished(Ok(())))));
    assert_eq!(imu.state(), ImuState::PoweringOn);
    assert_eq!(imu.pending(), Pending::Idle);
}

#[test]
fn reset_runs_the_script_in_order() {
    let mut imu = MPU6500::new();
    let mut bus = MockBus::new(0x70);
    assert_eq!(run_reset(&mut imu, &mut bus), Ok(()));
    assert_eq!(imu.state(), ImuState::Ready);
    assert_eq!(imu.pending(), Pending::Idle);
    assert_eq!(
        bus.log,
        vec![
            "write 0x6b 0x80",
            "sleep 100",
            "read 0x75",
            "write 0x6a 0x10",
            "write 0x1c 0x18",
            "write 0x1d 0x08",
            "write 0x1b 0x18",
        ]
    );
}

#[test]
fn reset_is_configuring_until_it_is_over() {
    let mut imu = MPU6500::new();
    let mut bus = MockBus::new(0x70);
    let mut step = imu.reset();
    let mut steps = 0;
    while let Step::Perform(action) = step {
        assert_eq!(imu.state(), ImuState::Configuring);
        assert_eq!(imu.pending(), Pending::Reset { step: steps });
        steps += 1;
        step = imu.resume_reset(bus.perform(&action)).unwrap();
    }
    assert_eq!(steps, 7);
    assert_eq!(imu.state(), ImuState::Ready);
}

#[test]
fn reset_reads_the_identity_after_the_settle_wait_and_before_any_configuration() {
    let mut imu = MPU6500::new();
    let mut bus = MockBus::new(0x70);
    assert_eq!(run_reset(&mut imu, &mut bus), Ok(()));
    let identity = bus.log.iter().position(|entry| entry == "read 0x75").unwrap();
    assert_eq!(bus.log[identity - 1], "sleep 100");
    assert_eq!(bus.log[identity - 2], "write 0x6b 0x80");
    for (index, entry) in bus.log.iter().enumerate() {
        let configures = entry.starts_with("write 0x6a")
            || entry.starts_with("write 0x1c")
            || entry.starts_with("write 0x1d")
            || entry.starts_with("write 0x1b");
        assert_eq!(configures, index > identity);
    }
}

#[test]
fn reset_then_read_of_a_frame_of_zeros() {
    let mut imu = MPU6500::new();
    let mut bus = MockBus::new(0x70);
    assert_eq!(run_reset(&mut imu, &mut bus), Ok(()));
    let reading = run_read(&mut imu, &mut bus, 1_500).unwrap();
    assert_eq!(bus.log.len(), 8);
    assert_eq!(bus.log[7], "burst 0xbb");
    assert!(reading.timestamp > 0);
    assert_eq!(reading.timestamp, 1_500);
    assert_eq!([value(reading.acc.x), value(reading.acc.y), value(reading.acc.z)], [0.0, 0.0, 0.0]);
    assert_eq!([value(reading.gyro.x), value(reading.gyro.y), value(reading.gyro.z)], [0.0, 0.0, 0.0]);
    assert_eq!(reading.acc.x, Ratio { numerator: 0, denominator: 204_800 });
    assert_eq!(reading.gyro.x, Ratio { numerator: 0, denominator: 164 });
    assert_eq!(imu.state(), ImuState::Ready);
}

#[test]
fn reset_fails_on_a_wrong_identity() {
    let mut imu = MPU6500::new();
    let mut bus = MockBus::new(0x71);
    assert_eq!(run_reset(&mut imu, &mut bus), Err(MPU6500Error::InvalidRegister));
    assert_eq!(imu.state(), ImuState::Faulted(MPU6500Error::InvalidRegister));
    assert_eq!(imu.pending(), Pending::Idle);
    assert_eq!(bus.log, vec!["write 0x6b 0x80", "sleep 100", "read 0x75"]);
}

#[test]
fn reset_fails_where_the_bus_fails() {
    for index in [0usize, 2, 3, 4, 5, 6] {
        let mut imu = MPU6500::new();
        let mut bus = MockBus::new(0x70);
        bus.fail_at = Some((index, SpiBusError::Framing));
        let error = MPU6500Error::SpiBusError(SpiBusError::Framing);
        assert_eq!(run_reset(&mut imu, &mut bus), Err(error));
        assert_eq!(imu.state(), ImuState::Faulted(error));
        assert_eq!(bus.log.len(), index + 1);
    }
}

#[test]
fn a_faulted_driver_asks_nothing_of_the_device() {
    let mut imu = MPU6500::new();
    let mut bus = MockBus::new(0x00);
    assert_eq!(run_reset(&mut imu, &mut bus), Err(MPU6500Error::InvalidRegister));
    let asked = bus.log.len();
    bus.identity = 0x70;
    assert_eq!(run_reset(&mut imu, &mut bus), Err(MPU6500Error::InvalidRegister));
    assert!(matches!(imu.wait_for_power_on(), Step::Finished(Err(MPU6500Error::InvalidRegister))));
    assert_eq!(run_read(&mut imu, &mut bus, 1), Err(MPU6500Error::InvalidRegister));
    assert_eq!(bus.log.len(), asked);
    assert_eq!(imu.state(), ImuState::Faulted(MPU6500Error::InvalidRegister));
}

#[test]
fn from_wraps_the_bus_error() {
    assert_eq!(MPU6500Error::from(SpiBusError::Crc), MPU6500Error::SpiBusError(SpiBusError::Crc));
    let error: MPU6500Error = SpiBusError::ModeFault.into();
    assert_eq!(error, MPU6500Error::SpiBusError(SpiBusError::ModeFault));
}

#[test]
fn register_transfers_run_at_1_mhz() {
    let transfer = MPU6500::read_register(0x75);
    assert_eq!(transfer.frequency, Hertz(1_000_000));
    assert_eq!(transfer.write, vec![0xF5, 0x00]);
    let transfer = MPU6500::write_register(0x6B, 0x80u8);
    assert_eq!(transfer.frequency, Hertz(1_000_000));
    assert_eq!(transfer.write, vec![0x6B, 0x80]);
    let transfer = MPU6500::write_register(0xEB, 0x80u8);
    assert_eq!(transfer.write, vec![0x6B, 0x80]);
}

#[test]
fn the_burst_runs_at_20_mhz() {
    let transfer = MPU6500::burst_transfer();
    assert_eq!(transfer.frequency, Hertz(20_000_000));
    let mut frame = vec![0u8; 15];
    frame[0] = 0b1011_1011;
    assert_eq!(transfer.write, frame);
}

#[test]
fn responses_are_decoded_or_refused() {
    assert_eq!(MPU6500::read_response::<WhoAmI>(Ok(vec![0xFF, 0x70])), Ok(WhoAmI));
    assert_eq!(MPU6500::read_response::<WhoAmI>(Ok(vec![0x70, 0x32])), Err(MPU6500Error::InvalidRegister));
    assert_eq!(
        MPU6500::read_response::<WhoAmI>(Err(SpiBusError::Overrun)),
        Err(MPU6500Error::SpiBusError(SpiBusError::Overrun))
    );
    assert_eq!(MPU6500::read_response::<u8>(Ok(vec![0x00, 0xAB])), Ok(0xAB));
    assert_eq!(MPU6500::write_response(Ok(vec![0x12, 0x34])), Ok(()));
    assert_eq!(
        MPU6500::write_response(Err(SpiBusError::Crc)),
        Err(MPU6500Error::SpiBusError(SpiBusError::Crc))
    );
}

#[test]
fn words_are_big_endian_and_signed() {
    assert_eq!(be_i16(0x00, 0x00), 0);
    assert_eq!(be_i16(0x00, 0x01), 1);
    assert_eq!(be_i16(0x01, 0x00), 256);
    assert_eq!(be_i16(0x7F, 0xFF), 32767);
    assert_eq!(be_i16(0x80, 0x00), -32768);
    assert_eq!(be_i16(0xFF, 0xFF), -1);
    for high in 0..=255u8 {
        for low in [0u8, 1, 0x7F, 0x80, 0xFF] {
            assert_eq!(be_i16(high, low), i16::from_be_bytes([high, low]));
        }
    }
}

#[test]
fn full_scale_acceleration() {
    let reading = acceleration(0x7FFF, ACCEL_RANGE);
    assert_eq!(reading, Ratio { numerator: 32767 * 981, denominator: 2048 * 100 });
    let expected = (32767.0 / 2048.0) * 9.81;
    assert!((value(reading) - expected).abs() < 1e-9);
    for range in [AccelerometerRange::G_2, AccelerometerRange::G_4, AccelerometerRange::G_8, AccelerometerRange::G_16] {
        let factor = range.get_scale_factor();
        let s = factor.numerator as f64 / factor.denominator as f64;
        let expected = (32767.0 / s) * 9.81;
        assert!((value(acceleration(0x7FFF, range)) - expected).abs() < 1e-9);
    }
    let one_g = acceleration(2048, AccelerometerRange::G_16);
    assert!((value(one_g) - 9.81).abs() < 1e-12);
    let least = acceleration(i16::MIN, AccelerometerRange::G_16);
    assert!((value(least) + 16.0 * 9.81).abs() < 1e-9);
}

#[test]
fn full_scale_angular_rate() {
    let reading = angular_rate(0x7FFF, GYRO_RANGE);
    assert_eq!(reading, Ratio { numerator: 327_670, denominator: 164 });
    assert!((value(reading) - 32767.0 / 16.4).abs() < 1e-9);
    let reading = angular_rate(-131, GyroscopeRange::DPS_250);
    assert_eq!(reading, Ratio { numerator: -131, denominator: 131 });
    let reading = angular_rate(655, GyroscopeRange::DPS_500);
    assert!((value(reading) - 10.0).abs() < 1e-12);
}

#[test]
fn a_burst_is_three_words_of_each_sensor_around_the_temperature() {
    let frame = vec![0xEE, 0x7F, 0xFF, 0x80, 0x00, 0x08, 0x00, 0x12, 0x34, 0x00, 0xA4, 0xFF, 0x5C, 0x40, 0x10];
    let reading = MPU6500::parse_reading(77, &frame);
    assert_eq!(reading.timestamp, 77);
    assert!((value(reading.acc.x) - (32767.0 / 2048.0) * 9.81).abs() < 1e-9);
    assert!((value(reading.acc.y) + 16.0 * 9.81).abs() < 1e-9);
    assert!((value(reading.acc.z) - 9.81).abs() < 1e-12);
    assert!((value(reading.gyro.x) - 10.0).abs() < 1e-12);
    assert!((value(reading.gyro.y) + 10.0).abs() < 1e-12);
    assert!((value(reading.gyro.z) - 16400.0 / 16.4).abs() < 1e-9);
}

#[test]
fn a_reading_that_fails_leaves_the_driver_ready() {
    let mut imu = MPU6500::new();
    let mut bus = MockBus::new(0x70);
    assert_eq!(run_reset(&mut imu, &mut bus), Ok(()));
    bus.fail_at = Some((7, SpiBusError::Overrun));
    assert_eq!(run_read(&mut imu, &mut bus, 9), Err(MPU6500Error::SpiBusError(SpiBusError::Overrun)));
    assert_eq!(imu.state(), ImuState::Ready);
    assert_eq!(imu.pending(), Pending::Idle);
    bus.fail_at = None;
    bus.burst = vec![0, 0x08, 0x00, 0, 0, 0, 0, 0, 0, 0, 0, 0, 0, 0, 0];
    let reading = run_read(&mut imu, &mut bus, 10).unwrap();
    assert_eq!(reading.timestamp, 10);
    assert!((value(reading.acc.x) - 9.81).abs() < 1e-12);
}

#[test]
fn the_driver_expects_the_answer_to_its_action() {
    let mut imu = MPU6500::new();
    let step = imu.reset();
    assert!(matches!(step, Step::Perform(Action::Transfer(_))));
    assert!(imu.expects(&Event::Transferred(Ok(vec![0, 0]))));
    assert!(imu.expects(&Event::Transferred(Err(SpiBusError::Framing))));
    assert!(!imu.expects(&Event::Transferred(Ok(vec![0, 0, 0]))));
    assert!(!imu.expects(&Event::Elapsed));
    let _ = imu.resume_reset(Event::Transferred(Ok(vec![0, 0])));
    assert!(imu.expects(&Event::Elapsed));
    assert!(!imu.expects(&Event::Transferred(Ok(vec![0, 0]))));
    let _ = imu.read(3);
    assert_eq!(imu.pending(), Pending::Read { timestamp: 3 });
    assert!(imu.expects(&Event::Transferred(Ok(vec![0; 15]))));
    assert!(!imu.expects(&Event::Transferred(Ok(vec![0; 14]))));
}

#[test]
fn an_event_that_is_no_answer_changes_nothing() {
    let mut imu = MPU6500::new();
    assert!(imu.resume_reset(Event::Elapsed).is_none());
    assert!(imu.resume_power_on(Event::Elapsed).is_none());
    assert!(imu.resume_read(Event::Transferred(Ok(vec![0; 15]))).is_none());
    assert_eq!(imu.state(), ImuState::Uninitialized);
    assert_eq!(imu.pending(), Pending::Idle);

    let _ = imu.reset();
    assert!(imu.resume_reset(Event::Elapsed).is_none());
    assert!(imu.resume_reset(Event::Transferred(Ok(vec![0]))).is_none());
    assert!(imu.resume_read(Event::Transferred(Ok(vec![0, 0]))).is_none());
    assert!(imu.resume_power_on(Event::Elapsed).is_none());
    assert_eq!(imu.state(), ImuState::Configuring);
    assert_eq!(imu.pending(), Pending::Reset { step: 0 });
    assert!(imu.resume_reset(Event::Transferred(Ok(vec![0, 0]))).is_some());
    assert!(imu.resume_reset(Event::Transferred(Ok(vec![0, 0]))).is_none());
    assert_eq!(imu.pending(), Pending::Reset { step: 1 });

    let _ = imu.read(4);
    assert!(imu.resume_read(Event::Elapsed).is_none());
    assert!(imu.resume_read(Event::Transferred(Ok(vec![0; 2]))).is_none());
    assert!(imu.resume_reset(Event::Transferred(Ok(vec![0; 15]))).is_none());
    assert_eq!(imu.pending(), Pending::Read { timestamp: 4 });

    let _ = imu.wait_for_power_on();
    assert!(imu.resume_power_on(Event::Transferred(Ok(vec![0, 0]))).is_none());
    assert_eq!(imu.pending(), Pending::PowerOn);
}

#[test]
fn a_new_operation_gives_up_the_one_under_way() {
    let mut imu = MPU6500::new();
    let _ = imu.reset();
    let _ = imu.resume_reset(Event::Transferred(Ok(vec![0, 0])));
    assert_eq!(imu.pending(), Pending::Reset { step: 1 });
    let step = imu.reset();
    assert_eq!(imu.pending(), Pending::Reset { step: 0 });
    match step {
        Step::Perform(Action::Transfer(transfer)) => assert_eq!(transfer.write, vec![0x6B, 0x80]),
        _ => panic!("a reset starts with the device reset"),
    }
}
