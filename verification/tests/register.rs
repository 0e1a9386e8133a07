use spi_sensors::imu::registers::{
    AccelerometerConfig1, AccelerometerConfig2, AccelerometerDataRate, AccelerometerLowPass, AccelerometerRange,
    ClockSource, GyroscopeConfig, GyroscopeFilter, GyroscopeRange, PowerManagement1, UserControl, WhoAmI,
};
use spi_sensors::motion_sensor::registers::AxisOutput;
use spi_sensors::register::{
    decode_response, read_command, read_frame, write_command, write_frame, Register, ADDRESS_MASK, READ_FLAG,
};

#[test]
fn read_command_has_the_top_bit_set() {
    for address in 0..=255u8 {
        let command = read_command(address);
        assert_eq!(command & READ_FLAG, READ_FLAG);
        assert_eq!(command & ADDRESS_MASK, address & ADDRESS_MASK);
    }
    assert_eq!(read_command(0x75), 0xF5);
    assert_eq!(read_command(0xF5), 0xF5);
    assert_eq!(read_command(0x3B), 0b1011_1011);
}

#[test]
fn write_command_has_the_top_bit_clear() {
    for address in 0..=255u8 {
        let command = write_command(address);
        assert_eq!(command & READ_FLAG, 0);
        assert_eq!(command & ADDRESS_MASK, address & ADDRESS_MASK);
    }
    assert_eq!(write_command(0x6B), 0x6B);
    assert_eq!(write_command(0xEB), 0x6B);
}

#[test]
fn frames_are_command_then_value() {
    assert_eq!(read_frame(0x0F), vec![0x8F, 0x00]);
    assert_eq!(write_frame(0x20, &0x30u8), vec![0x20, 0x30]);
    assert_eq!(write_frame(0xA0, &0x30u8), vec![0x20, 0x30]);
    let mut register = UserControl::default();
    register.set_i2c_if_dis(true);
    assert_eq!(write_frame(0x6A, &register), vec![0x6A, 0x10]);
}

#[test]
fn the_answer_is_the_second_byte() {
    assert_eq!(decode_response::<u8>(&vec![0xAA, 0x55]), Some(0x55));
    assert_eq!(decode_response::<WhoAmI>(&vec![0x00, 0x70]), Some(WhoAmI));
    assert_eq!(decode_response::<WhoAmI>(&vec![0x70, 0x00]), None);
}

fn round_trips<R: Register + PartialEq + std::fmt::Debug + Copy>() -> usize {
    let mut valid = 0;
    for raw in 0..=255u8 {
        if let Some(value) = R::decode(raw) {
            valid += 1;
            assert_eq!(R::decode(value.encode()), Some(value));
        }
    }
    valid
}

#[test]
fn every_register_round_trips() {
    assert_eq!(round_trips::<u8>(), 256);
    assert_eq!(round_trips::<PowerManagement1>(), 256);
    assert_eq!(round_trips::<UserControl>(), 256);
    assert_eq!(round_trips::<AccelerometerConfig1>(), 32);
    assert_eq!(round_trips::<AccelerometerConfig2>(), 16);
    assert_eq!(round_trips::<GyroscopeConfig>(), 128);
    assert_eq!(round_trips::<WhoAmI>(), 1);
    assert_eq!(round_trips::<spi_sensors::motion_sensor::registers::WhoAmI>(), 1);
    assert_eq!(round_trips::<AxisOutput>(), 256);
}

#[test]
fn every_value_of_power_management_round_trips() {
    for bits in 0..32u8 {
        for clock in [ClockSource::Internal, ClockSource::Auto, ClockSource::Stopped] {
            let value = PowerManagement1 {
                device_reset: bits & 16 != 0,
                sleep: bits & 8 != 0,
                cycle: bits & 4 != 0,
                gyro_standby: bits & 2 != 0,
                temp_disable: bits & 1 != 0,
                clock,
            };
            assert_eq!(PowerManagement1::decode(value.encode()), Some(value));
        }
    }
}

#[test]
fn every_value_of_the_configuration_registers_round_trips() {
    let ranges = [AccelerometerRange::G_2, AccelerometerRange::G_4, AccelerometerRange::G_8, AccelerometerRange::G_16];
    for bits in 0..8u8 {
        for range in ranges {
            let value = AccelerometerConfig1 {
                x_self_test: bits & 4 != 0,
                y_self_test: bits & 2 != 0,
                z_self_test: bits & 1 != 0,
                range,
            };
            assert_eq!(AccelerometerConfig1::decode(value.encode()), Some(value));
        }
    }
    let filters = [
        AccelerometerLowPass::Hz_460,
        AccelerometerLowPass::Hz_184,
        AccelerometerLowPass::Hz_92,
        AccelerometerLowPass::Hz_41,
        AccelerometerLowPass::Hz_20,
        AccelerometerLowPass::Hz_10,
        AccelerometerLowPass::Hz_5,
    ];
    for data_rate in [AccelerometerDataRate::Hz_1K, AccelerometerDataRate::Hz_4K] {
        for low_pass in filters {
            let value = AccelerometerConfig2 { data_rate, low_pass };
            assert_eq!(AccelerometerConfig2::decode(value.encode()), Some(value));
        }
    }
    let ranges = [GyroscopeRange::DPS_250, GyroscopeRange::DPS_500, GyroscopeRange::DPS_1000, GyroscopeRange::DPS_2000];
    for bits in 0..8u8 {
        for range in ranges {
            for filter in [GyroscopeFilter::LowPass, GyroscopeFilter::Bypass_8800, GyroscopeFilter::Bypass_3600] {
                let value = GyroscopeConfig {
                    x_self_test: bits & 4 != 0,
                    y_self_test: bits & 2 != 0,
                    z_self_test: bits & 1 != 0,
                    range,
                    filter,
                };
                assert_eq!(GyroscopeConfig::decode(value.encode()), Some(value));
            }
        }
    }
}

#[test]
fn registers_encode_bit_for_bit() {
    assert_eq!(PowerManagement1::default().encode(), 0x00);
    let mut register = PowerManagement1::default();
    register.set_device_reset(true);
    assert_eq!(register.encode(), 0x80);
    register.clock = ClockSource::Auto;
    register.sleep = true;
    assert_eq!(register.encode(), 0xC1);

    assert_eq!(UserControl::default().encode(), 0x00);
    let mut register = UserControl::default();
    register.set_i2c_if_dis(true);
    assert_eq!(register.encode(), 0x10);

    assert_eq!(AccelerometerConfig1::default().encode(), 0x00);
    let mut register = AccelerometerConfig1::default();
    register.set_range(AccelerometerRange::G_16);
    assert_eq!(register.encode(), 0x18);
    register.set_range(AccelerometerRange::G_4);
    assert_eq!(register.encode(), 0x08);

    assert_eq!(AccelerometerConfig2::default().encode(), 0x00);
    let mut register = AccelerometerConfig2::default();
    register.set_data_rate(AccelerometerDataRate::Hz_4K);
    assert_eq!(register.encode(), 0x08);
    register.low_pass = AccelerometerLowPass::Hz_5;
    assert_eq!(register.encode(), 0x0E);

    assert_eq!(GyroscopeConfig::default().encode(), 0x00);
    let mut register = GyroscopeConfig::default();
    register.set_range(GyroscopeRange::DPS_2000);
    assert_eq!(register.encode(), 0x18);
    register.filter = GyroscopeFilter::Bypass_3600;
    register.x_self_test = true;
    assert_eq!(register.encode(), 0x9A);

    assert_eq!(WhoAmI.encode(), 0x70);
    assert_eq!(spi_sensors::motion_sensor::registers::WhoAmI.encode(), 0x32);
}

#[test]
fn registers_decode_bit_for_bit() {
    assert_eq!(
        PowerManagement1::decode(0x41),
        Some(PowerManagement1 {
            device_reset: false,
            sleep: true,
            cycle: false,
            gyro_standby: false,
            temp_disable: false,
            clock: ClockSource::Auto,
        })
    );
    assert_eq!(PowerManagement1::decode(0x06).map(|r| r.clock), Some(ClockSource::Internal));
    assert_eq!(PowerManagement1::decode(0x05).map(|r| r.clock), Some(ClockSource::Auto));
    assert_eq!(PowerManagement1::decode(0x07).map(|r| r.clock), Some(ClockSource::Stopped));
    assert_eq!(UserControl::decode(0x10).map(|r| r.i2c_if_dis), Some(true));
    assert_eq!(AccelerometerConfig1::decode(0x18).map(|r| r.range), Some(AccelerometerRange::G_16));
    assert_eq!(AccelerometerConfig2::decode(0x08).map(|r| r.data_rate), Some(AccelerometerDataRate::Hz_4K));
    assert_eq!(AccelerometerConfig2::decode(0x07).map(|r| r.low_pass), Some(AccelerometerLowPass::Hz_460));
    assert_eq!(GyroscopeConfig::decode(0x10).map(|r| r.range), Some(GyroscopeRange::DPS_1000));
    assert_eq!(GyroscopeConfig::decode(0x03).map(|r| r.filter), Some(GyroscopeFilter::Bypass_8800));
}

#[test]
fn bytes_that_are_no_value_are_not_decoded() {
    for raw in 0..=255u8 {
        assert_eq!(WhoAmI::decode(raw).is_some(), raw == 0x70);
        assert_eq!(spi_sensors::motion_sensor::registers::WhoAmI::decode(raw).is_some(), raw == 0x32);
        assert_eq!(AccelerometerConfig1::decode(raw).is_some(), raw & 0x07 == 0);
        assert_eq!(AccelerometerConfig2::decode(raw).is_some(), raw & 0xF0 == 0);
        assert_eq!(GyroscopeConfig::decode(raw).is_some(), raw & 0x04 == 0);
    }
}

#[test]
fn axis_output_is_twos_complement() {
    assert_eq!(AxisOutput::decode(0x00), Some(AxisOutput { counts: 0 }));
    assert_eq!(AxisOutput::decode(0x7F), Some(AxisOutput { counts: 127 }));
    assert_eq!(AxisOutput::decode(0x80), Some(AxisOutput { counts: -128 }));
    assert_eq!(AxisOutput::decode(0xFF), Some(AxisOutput { counts: -1 }));
    assert_eq!(AxisOutput { counts: -1 }.encode(), 0xFF);
    assert_eq!(AxisOutput { counts: -128 }.encode(), 0x80);
    assert_eq!(AxisOutput { counts: 127 }.encode(), 0x7F);
}

#[test]
fn range_codes_and_scale_factors() {
    assert_eq!(AccelerometerRange::G_2.code(), 0);
    assert_eq!(AccelerometerRange::G_16.code(), 3);
    assert_eq!(AccelerometerRange::from_code(2), AccelerometerRange::G_8);
    assert_eq!(GyroscopeRange::DPS_2000.code(), 3);
    assert_eq!(GyroscopeRange::from_code(1), GyroscopeRange::DPS_500);
    let factor = AccelerometerRange::G_16.get_scale_factor();
    assert_eq!((factor.numerator, factor.denominator), (2048, 1));
    let factor = AccelerometerRange::G_2.get_scale_factor();
    assert_eq!((factor.numerator, factor.denominator), (16384, 1));
    let factor = GyroscopeRange::DPS_2000.get_scale_factor();
    assert_eq!((factor.numerator, factor.denominator), (164, 10));
    let factor = GyroscopeRange::DPS_250.get_scale_factor();
    assert_eq!((factor.numerator, factor.denominator), (131, 1));
    let factor = spi_sensors::motion_sensor::registers::AccelerometerRange::G_100.get_scale_factor();
    assert_eq!((factor.numerator, factor.denominator), (78, 100));
}
