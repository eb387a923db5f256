use r4dcb08_lib::protocol::{
    Address, AutomaticReport, BaudRate, Channel, Error, ErrorAddressOutOfRange,
    ErrorChannelOutOfRange, ErrorDegreeCelsiusOutOfRange, ErrorDurationOutOfRange,
    ErrorInvalidBaudRate, FactoryReset, Temperature, TemperatureCorrection, Temperatures, Word,
    NUMBER_OF_CHANNELS,
};
use std::time::Duration;

/// The tenths of a degree of a value given in degrees Celsius.
fn tenths(degrees: f32) -> i32 {
    (degrees * 10.0).round() as i32
}

/// The temperature of a value given in degrees Celsius.
fn celsius(degrees: f32) -> Result<Temperature, ErrorDegreeCelsiusOutOfRange> {
    Temperature::try_from(tenths(degrees))
}

/// The highest temperature in degrees Celsius.
const MAX: f32 = 3276.7;

/// The lowest temperature in degrees Celsius.
const MIN: f32 = -3276.7;

// --- Temperature Tests ---
#[test]
fn temperature_decode() {
    // Positive values
    assert_eq!(
        Temperature::decode_from_holding_registers(219),
        celsius(21.9).unwrap()
    );
    assert_eq!(
        Temperature::decode_from_holding_registers(100),
        celsius(10.0).unwrap()
    );
    assert_eq!(
        Temperature::decode_from_holding_registers(0),
        celsius(0.0).unwrap()
    );
    // Negative values
    assert_eq!(
        Temperature::decode_from_holding_registers(65424),
        celsius(-11.2).unwrap()
    );
    assert_eq!(
        Temperature::decode_from_holding_registers(65506),
        celsius(-3.0).unwrap()
    );
    // The negative value closest to zero
    assert_eq!(
        Temperature::decode_from_holding_registers(0xFFFF),
        celsius(-0.1).unwrap()
    );
    // The lowest temperature
    assert_eq!(
        Temperature::decode_from_holding_registers(0x8001),
        celsius(-3276.7).unwrap()
    );
    assert!(Temperature::decode_from_holding_registers(i16::MIN as u16).is_nan());
    assert_eq!(
        Temperature::decode_from_holding_registers(32769),
        celsius(-3276.7).unwrap()
    );

    // The highest temperature
    assert_eq!(
        Temperature::decode_from_holding_registers(32767),
        celsius(3276.7).unwrap()
    );
    // NAN value
    assert!(Temperature::decode_from_holding_registers(32768).is_nan());
    assert!(Temperature::decode_from_holding_registers(0x8000).is_nan());
}

#[test]
fn temperature_encode() {
    // Positive
    assert_eq!(celsius(21.9).unwrap().encode_for_write_register(), Ok(219));
    assert_eq!(celsius(10.0).unwrap().encode_for_write_register(), Ok(100));
    assert_eq!(celsius(0.0).unwrap().encode_for_write_register(), Ok(0));
    // Negative
    assert_eq!(
        celsius(-11.2).unwrap().encode_for_write_register(),
        Ok((-11.2 * 10.0) as i16 as u16)
    ); // 65424
    assert_eq!(
        celsius(-3.0).unwrap().encode_for_write_register(),
        Ok((-3.0 * 10.0) as i16 as u16)
    ); // 65506
    assert_eq!(
        celsius(-0.1).unwrap().encode_for_write_register(),
        Ok((-0.1 * 10.0) as i16 as u16)
    ); // 0xFFFF

    // Boundaries
    assert_eq!(celsius(MAX).unwrap().encode_for_write_register(), Ok(32767));
    assert_eq!(
        celsius(MIN).unwrap().encode_for_write_register(),
        Ok((MIN * 10.0) as i16 as u16)
    ); // -32767 -> 0x8001
}

#[test]
fn temperature_encode_nan() {
    assert!(matches!(
        Temperature::nan().encode_for_write_register(),
        Err(..)
    ));
}

#[test]
fn temperature_try_from() {
    // Valid
    assert!(matches!(celsius(21.9), Ok(t) if t.tenths() == Some(tenths(21.9) as i16)));
    assert!(matches!(celsius(-11.2), Ok(t) if t.tenths() == Some(tenths(-11.2) as i16)));
    assert!(matches!(celsius(MAX), Ok(t) if t.tenths() == Some(Temperature::MAX)));
    assert!(matches!(celsius(MIN), Ok(t) if t.tenths() == Some(Temperature::MIN)));

    // Invalid (Out of Range)
    let max_err_val = MAX + 0.1;
    assert!(
        matches!(celsius(max_err_val), Err(ErrorDegreeCelsiusOutOfRange(value)) if value == tenths(max_err_val))
    );

    let min_err_val = MIN - 0.1;
    assert!(
        matches!(celsius(min_err_val), Err(ErrorDegreeCelsiusOutOfRange(value)) if value == tenths(min_err_val))
    );

    // No number of tenths gives "not a number": the one number that shares
    // its bit pattern is out of range.
    assert!(matches!(
        Temperature::try_from(i32::from(i16::MIN)),
        Err(ErrorDegreeCelsiusOutOfRange(..))
    ));
}

#[test]
fn temperature_display() {
    assert_eq!(celsius(21.9).unwrap().to_string(), "21.9");
    assert_eq!(celsius(-3.0).unwrap().to_string(), "-3.0");
    assert_eq!(celsius(0.0).unwrap().to_string(), "0.0");
    assert_eq!(Temperature::nan().to_string(), "NAN");
}

// --- Address Tests ---
#[test]
fn address_try_from() {
    assert!(matches!(
        Address::try_from(0),
        Err(ErrorAddressOutOfRange(0))
    ));
    assert!(matches!(Address::try_from(Address::MIN), Ok(a) if *a == Address::MIN));
    assert!(matches!(Address::try_from(100), Ok(a) if *a == 100));
    assert!(matches!(Address::try_from(Address::MAX), Ok(a) if *a == Address::MAX));
    assert!(matches!(
        Address::try_from(Address::MAX + 1),
        Err(ErrorAddressOutOfRange(248))
    ));
    assert!(matches!(
        Address::try_from(255),
        Err(ErrorAddressOutOfRange(255))
    )); // The broadcast address does not pass validation
}

#[test]
fn address_decode() {
    assert_eq!(
        Address::decode_from_holding_registers(&[0x0001]).unwrap(),
        Address::try_from(1).unwrap()
    );
    assert_eq!(
        Address::decode_from_holding_registers(&[0x00F7]).unwrap(),
        Address::try_from(247).unwrap()
    );
    assert_eq!(
        Address::decode_from_holding_registers(&[0x0001]).unwrap(),
        Address::try_from(1).unwrap()
    );
}

#[test]
fn address_decode_empty() {
    assert!(matches!(
        Address::decode_from_holding_registers(&[]),
        Err(..)
    ));
}

#[test]
fn address_decode_invalid() {
    assert!(matches!(
        Address::decode_from_holding_registers(&[0x0000]),
        Err(..)
    )); // Address 0 is invalid
}

#[test]
fn address_encode() {
    assert_eq!(
        Address::try_from(1).unwrap().encode_for_write_register(),
        0x0001
    );
    assert_eq!(
        Address::try_from(247).unwrap().encode_for_write_register(),
        0x00F7
    );
    assert_eq!(Address::default().encode_for_write_register(), 0x0001);
}

#[test]
fn address_display() {
    assert_eq!(Address::try_from(1).unwrap().to_string(), "0x01");
    assert_eq!(Address::try_from(25).unwrap().to_string(), "0x19");
    assert_eq!(Address::try_from(247).unwrap().to_string(), "0xf7");
}

#[test]
fn address_constants() {
    assert_eq!(*Address::broadcast(), 0xFF);
}

// --- BaudRate Tests ---
#[test]
fn baudrate_decode() {
    assert!(matches!(
        BaudRate::decode_from_holding_registers(&[0]).unwrap(),
        BaudRate::B1200
    ));
    assert!(matches!(
        BaudRate::decode_from_holding_registers(&[1]).unwrap(),
        BaudRate::B2400
    ));
    assert!(matches!(
        BaudRate::decode_from_holding_registers(&[2]).unwrap(),
        BaudRate::B4800
    ));
    assert!(matches!(
        BaudRate::decode_from_holding_registers(&[3]).unwrap(),
        BaudRate::B9600
    ));
    assert!(matches!(
        BaudRate::decode_from_holding_registers(&[4]).unwrap(),
        BaudRate::B19200
    ));
}

#[test]
fn baudrate_decode_panics_on_invalid_value_high1() {
    assert!(matches!(
        BaudRate::decode_from_holding_registers(&[5]),
        Err(..)
    ));
}

#[test]
fn baudrate_decode_panics_on_invalid_value_zero() {
    assert!(matches!(
        BaudRate::decode_from_holding_registers(&[]),
        Err(..)
    ));
}

#[test]
fn baudrate_encode() {
    assert_eq!(BaudRate::B1200.encode_for_write_register(), 0);
    assert_eq!(BaudRate::B2400.encode_for_write_register(), 1);
    assert_eq!(BaudRate::B4800.encode_for_write_register(), 2);
    assert_eq!(BaudRate::B9600.encode_for_write_register(), 3);
    assert_eq!(BaudRate::B19200.encode_for_write_register(), 4);
    assert_eq!(BaudRate::default().encode_for_write_register(), 3);
}

#[test]
fn baudrate_try_from_u16() {
    assert!(matches!(BaudRate::try_from(1200), Ok(BaudRate::B1200)));
    assert!(matches!(BaudRate::try_from(2400), Ok(BaudRate::B2400)));
    assert!(matches!(BaudRate::try_from(4800), Ok(BaudRate::B4800)));
    assert!(matches!(BaudRate::try_from(9600), Ok(BaudRate::B9600)));
    assert!(matches!(BaudRate::try_from(19200), Ok(BaudRate::B19200)));
    // Invalid values
    assert!(matches!(
        BaudRate::try_from(0),
        Err(ErrorInvalidBaudRate(0))
    ));
    assert!(matches!(
        BaudRate::try_from(1000),
        Err(ErrorInvalidBaudRate(1000))
    ));
    assert!(matches!(
        BaudRate::try_from(38400),
        Err(ErrorInvalidBaudRate(38400))
    ));
}

#[test]
fn baudrate_from_baudrate_to_u16() {
    assert_eq!(u16::from(BaudRate::B1200), 1200);
    assert_eq!(u16::from(BaudRate::B2400), 2400);
    assert_eq!(u16::from(BaudRate::B4800), 4800);
    assert_eq!(u16::from(BaudRate::B9600), 9600);
    assert_eq!(u16::from(BaudRate::B19200), 19200);
    assert_eq!(u16::from(BaudRate::default()), 9600);
}

#[test]
fn baudrate_display() {
    assert_eq!(BaudRate::B1200.to_string(), "1200");
    assert_eq!(BaudRate::B9600.to_string(), "9600");
    assert_eq!(BaudRate::B19200.to_string(), "19200");
    assert_eq!(BaudRate::default().to_string(), "9600");
}

// --- Channel Tests ---
#[test]
fn channel_try_from() {
    assert!(matches!(Channel::try_from(Channel::MIN), Ok(c) if *c == Channel::MIN));
    assert!(matches!(Channel::try_from(3), Ok(c) if *c == 3));
    assert!(matches!(Channel::try_from(Channel::MAX), Ok(c) if *c == Channel::MAX));
    // Invalid
    assert!(matches!(
        Channel::try_from(Channel::MAX + 1),
        Err(ErrorChannelOutOfRange(8))
    ));
    assert!(matches!(
        Channel::try_from(255),
        Err(ErrorChannelOutOfRange(255))
    ));
}

#[test]
fn channel_new() {
    assert_eq!(*Channel::try_from(0).unwrap(), 0);
    assert_eq!(*Channel::try_from(7).unwrap(), 7);
}

#[test]
fn channel_display() {
    assert_eq!(Channel::try_from(0).unwrap().to_string(), "0");
    assert_eq!(Channel::try_from(7).unwrap().to_string(), "7");
}

// --- Temperatures Tests ---
#[test]
fn temperatures_decode() {
    let words = [219, 65424, 100, 65506, 32767, 32769, 0, 32768]; // Mix of temps + NAN
    let temps = Temperatures::decode_from_holding_registers(&words).unwrap();

    assert_eq!(temps[0], celsius(21.9).unwrap());
    assert_eq!(temps[1], celsius(-11.2).unwrap());
    assert_eq!(temps[2], celsius(10.0).unwrap());
    assert_eq!(temps[3], celsius(-3.0).unwrap());
    assert_eq!(temps[4], celsius(3276.7).unwrap()); // MAX
    assert_eq!(temps[5], celsius(-3276.7).unwrap()); // MIN
    assert_eq!(temps[6], celsius(0.0).unwrap());
    assert!(temps[7].is_nan()); // NAN

    // Check iterator
    let mut iter = temps.iter();
    assert_eq!(iter.next(), Some(&celsius(21.9).unwrap()));
    assert_eq!(iter.next(), Some(&celsius(-11.2).unwrap()));
    assert!(iter.nth(5).expect("7th element (index 7)").is_nan());
    assert_eq!(iter.next(), None);

    // Check indexing
    assert_eq!(temps[0], celsius(21.9).unwrap());
    assert!(temps[7].is_nan());
}

#[test]
fn temperatures_decode_wrong_size() {
    let words = [219, 65424]; // Too few
    assert!(matches!(
        Temperatures::decode_from_holding_registers(&words),
        Err(..)
    ));
}

#[test]
#[should_panic]
fn temperatures_index_out_of_bounds() {
    let words = [0; NUMBER_OF_CHANNELS];
    let temps = Temperatures::decode_from_holding_registers(&words).unwrap();
    let _ = temps[NUMBER_OF_CHANNELS]; // Index 8 is invalid
}

#[test]
fn temperatures_display() {
    let words = [219, 65424, 32768, 0, 0, 0, 0, 0];
    let temps = Temperatures::decode_from_holding_registers(&words).unwrap();
    assert_eq!(
        temps.to_string(),
        "21.9, -11.2, NAN, 0.0, 0.0, 0.0, 0.0, 0.0"
    );
}

// --- TemperatureCorrection Tests ---
#[test]
fn temperature_correction_decode() {
    let words = [10, 65526, 0, 32768, 1, 2, 3, 4]; // 1.0, -1.0, 0.0, NAN etc.
    let corrections = TemperatureCorrection::decode_from_holding_registers(&words).unwrap();

    assert_eq!(corrections[0], celsius(1.0).unwrap());
    assert_eq!(corrections[1], celsius(-1.0).unwrap());
    assert_eq!(corrections[2], celsius(0.0).unwrap());
    assert!(corrections[3].is_nan());
    assert_eq!(corrections.as_slice().len(), 8);
}

#[test]
fn temperature_correction_encode_single() {
    assert_eq!(
        TemperatureCorrection::encode_for_write_register(celsius(2.0).unwrap()),
        Ok(20)
    );
    assert_eq!(
        TemperatureCorrection::encode_for_write_register(celsius(-1.5).unwrap()),
        Ok((-1.5 * 10.0) as i16 as Word)
    ); // 65521
    assert_eq!(
        TemperatureCorrection::encode_for_write_register(celsius(0.0).unwrap()),
        Ok(0)
    );
}

#[test]
fn temperature_correction_encode_nan() {
    assert!(matches!(
        TemperatureCorrection::encode_for_write_register(Temperature::nan()),
        Err(..)
    ));
}

#[test]
fn temperature_correction_channel_address() {
    assert_eq!(
        TemperatureCorrection::channel_address(Channel::try_from(0).unwrap()),
        TemperatureCorrection::ADDRESS + 0
    ); // 0x0008
    assert_eq!(
        TemperatureCorrection::channel_address(Channel::try_from(1).unwrap()),
        TemperatureCorrection::ADDRESS + 1
    ); // 0x0009
    assert_eq!(
        TemperatureCorrection::channel_address(Channel::try_from(7).unwrap()),
        TemperatureCorrection::ADDRESS + 7
    ); // 0x000F

    assert_eq!(TemperatureCorrection::ADDRESS, 0x0008);
    assert_eq!(TemperatureCorrection::QUANTITY, 8);
}

#[test]
fn temperature_correction_display() {
    let words = [10, 65526, 0, 32768, 0, 0, 0, 0];
    let corr = TemperatureCorrection::decode_from_holding_registers(&words).unwrap();
    assert_eq!(corr.to_string(), "1.0, -1.0, 0.0, NAN, 0.0, 0.0, 0.0, 0.0");
}

// --- AutomaticReport Tests ---
#[test]
fn automatic_report_decode() {
    assert!(
        matches!(AutomaticReport::decode_from_holding_registers(&[0x0000]).unwrap(), report if *report == 0)
    );
    assert!(
        matches!(AutomaticReport::decode_from_holding_registers(&[0x0001]).unwrap(), report if *report == 1)
    );
    assert!(
        matches!(AutomaticReport::decode_from_holding_registers(&[0x000A]).unwrap(), report if *report == 10)
    ); // 10 seconds
    assert!(
        matches!(AutomaticReport::decode_from_holding_registers(&[0x00FF]).unwrap(), report if *report == 255)
    ); // Max seconds
}

#[test]
fn automatic_report_decode_invalid() {
    assert!(matches!(
        AutomaticReport::decode_from_holding_registers(&[0x0100]),
        Err(..)
    )); // Value 256 is invalid
}

#[test]
fn automatic_report_encode() {
    assert_eq!(AutomaticReport::from(0).encode_for_write_register(), 0);
    assert_eq!(AutomaticReport::from(1).encode_for_write_register(), 1);
    assert_eq!(AutomaticReport::from(10).encode_for_write_register(), 10);
    assert_eq!(AutomaticReport::from(255).encode_for_write_register(), 255);
    assert_eq!(AutomaticReport::disabled().encode_for_write_register(), 0);
}

#[test]
fn automatic_report_try_from_duration() {
    assert!(matches!(AutomaticReport::try_from(Duration::ZERO), Ok(r) if r.as_secs() == 0));
    assert!(matches!(AutomaticReport::try_from(Duration::from_secs(1)), Ok(r) if r.as_secs() == 1));
    assert!(
        matches!(AutomaticReport::try_from(Duration::from_secs(10)), Ok(r) if r.as_secs() == 10)
    );
    assert!(
        matches!(AutomaticReport::try_from(Duration::from_secs(255)), Ok(r) if r.as_secs() == 255)
    );
    // Includes fractional part (ignored)
    assert!(
        matches!(AutomaticReport::try_from(Duration::from_millis(10500)), Ok(r) if r.as_secs() == 10)
    );

    // Invalid duration
    let invalid_secs = (AutomaticReport::DURATION_MAX as u64) + 1;
    assert!(
        matches!(AutomaticReport::try_from(Duration::from_secs(invalid_secs)), Err(ErrorDurationOutOfRange(value_secs)) if value_secs == invalid_secs)
    );
}

#[test]
fn automatic_report_helpers() {
    let report_10s = AutomaticReport::try_from(10).unwrap();
    let report_disabled = AutomaticReport::disabled();

    assert_eq!(report_10s.as_secs(), 10);
    assert_eq!(report_10s.as_duration(), Duration::from_secs(10));
    assert!(!report_10s.is_disabled());

    assert_eq!(report_disabled.as_secs(), 0);
    assert_eq!(report_disabled.as_duration(), Duration::ZERO);
    assert!(report_disabled.is_disabled());
}

#[test]
fn automatic_report_display() {
    assert_eq!(AutomaticReport::from(0).to_string(), "0s");
    assert_eq!(AutomaticReport::from(1).to_string(), "1s");
    assert_eq!(AutomaticReport::from(255).to_string(), "255s");
}

// --- FactoryReset Tests ---
#[test]
fn factory_reset_encode() {
    assert_eq!(FactoryReset::encode_for_write_register(), 5);
}

#[test]
fn factory_reset_address() {
    // The command is written to the register of the baud rate
    assert_eq!(FactoryReset::ADDRESS, BaudRate::ADDRESS);
}

// --- Register map and errors ---
#[test]
fn register_map_is_as_documented() {
    assert_eq!((Temperatures::ADDRESS, Temperatures::QUANTITY), (0x0000, 8));
    assert_eq!(
        (TemperatureCorrection::ADDRESS, TemperatureCorrection::QUANTITY),
        (0x0008, 8)
    );
    assert_eq!(
        (AutomaticReport::ADDRESS, AutomaticReport::QUANTITY),
        (0x00FD, 1)
    );
    assert_eq!((Address::ADDRESS, Address::QUANTITY), (0x00FE, 1));
    assert_eq!((BaudRate::ADDRESS, BaudRate::QUANTITY), (0x00FF, 1));
    assert_eq!(NUMBER_OF_CHANNELS, 8);
}

#[test]
fn temperature_boundary_words() {
    assert!(Temperature::decode_from_holding_registers(0x8000).is_nan());
    assert_eq!(
        Temperature::decode_from_holding_registers(0x7FFF).tenths(),
        Some(32767)
    );
    assert_eq!(
        Temperature::decode_from_holding_registers(0x8001).tenths(),
        Some(-32767)
    );
    assert_eq!(
        Temperature::try_from(32767).unwrap().encode_for_write_register(),
        Ok(0x7FFF)
    );
    assert_eq!(
        Temperature::try_from(-32767).unwrap().encode_for_write_register(),
        Ok(0x8001)
    );
    assert_eq!(Temperature::MAX, 32767);
    assert_eq!(Temperature::MIN, -32767);
    assert_eq!(Temperature::NAN_WORD, 0x8000);
}

#[test]
fn temperature_round_trip_over_all_words() {
    for word in 0..=u16::MAX {
        let temperature = Temperature::decode_from_holding_registers(word);
        if word == 0x8000 {
            assert!(temperature.is_nan());
            assert!(temperature.encode_for_write_register().is_err());
            assert_eq!(temperature, Temperature::nan());
        } else {
            assert!(!temperature.is_nan());
            assert_eq!(temperature.encode_for_write_register(), Ok(word));
        }
    }
    for tenths in -32767..=32767 {
        let temperature = Temperature::try_from(tenths).unwrap();
        let word = temperature.encode_for_write_register().unwrap();
        assert_eq!(Temperature::decode_from_holding_registers(word), temperature);
        assert_eq!(temperature.tenths(), Some(tenths as i16));
    }
}

#[test]
fn temperature_try_from_rejects_out_of_range_tenths() {
    assert_eq!(
        Temperature::try_from(32768),
        Err(ErrorDegreeCelsiusOutOfRange(32768))
    );
    assert_eq!(
        Temperature::try_from(-32768),
        Err(ErrorDegreeCelsiusOutOfRange(-32768))
    );
    assert_eq!(
        Temperature::try_from(i32::MAX),
        Err(ErrorDegreeCelsiusOutOfRange(i32::MAX))
    );
    assert_eq!(
        Temperature::try_from(i32::MIN),
        Err(ErrorDegreeCelsiusOutOfRange(i32::MIN))
    );
}

#[test]
fn temperature_display_of_signs_and_fractions() {
    assert_eq!(Temperature::try_from(-1).unwrap().to_string(), "-0.1");
    assert_eq!(Temperature::try_from(1).unwrap().to_string(), "0.1");
    assert_eq!(Temperature::try_from(-112).unwrap().to_string(), "-11.2");
    assert_eq!(Temperature::try_from(32767).unwrap().to_string(), "3276.7");
    assert_eq!(Temperature::try_from(-32767).unwrap().to_string(), "-3276.7");
    assert_eq!(Temperature::try_from(1000).unwrap().to_string(), "100.0");
}

#[test]
fn temperature_encode_nan_names_the_reason() {
    assert_eq!(
        Temperature::nan().encode_for_write_register(),
        Err(Error::EncodeError {
            reason: "Temperature value is NAN, which cannot be encoded.".to_string()
        })
    );
}

#[test]
fn baudrate_decode_rejects_every_other_code() {
    for code in 0..=u16::MAX {
        let decoded = BaudRate::decode_from_holding_registers(&[code]);
        if code <= 4 {
            assert_eq!(decoded.unwrap().encode_for_write_register(), code);
        } else {
            assert_eq!(
                decoded,
                Err(Error::InvalidValueCode {
                    entity: "BaudRate".to_string(),
                    code
                })
            );
        }
    }
}

#[test]
fn baudrate_decode_wrong_length() {
    assert_eq!(
        BaudRate::decode_from_holding_registers(&[]),
        Err(Error::UnexpectedDataLength {
            expected: 1,
            got: 0
        })
    );
    assert_eq!(
        BaudRate::decode_from_holding_registers(&[3, 3]),
        Err(Error::UnexpectedDataLength {
            expected: 1,
            got: 2
        })
    );
}

#[test]
fn baudrate_from_baudrate_to_u32() {
    assert_eq!(u32::from(BaudRate::B1200), 1200);
    assert_eq!(u32::from(BaudRate::B19200), 19200);
    assert_eq!(BaudRate::B4800.bits_per_second(), 4800);
}

#[test]
fn address_decode_errors() {
    assert_eq!(
        Address::decode_from_holding_registers(&[1, 2]),
        Err(Error::UnexpectedDataLength {
            expected: 1,
            got: 2
        })
    );
    assert_eq!(
        Address::decode_from_holding_registers(&[0x0100]),
        Err(Error::InvalidData {
            details: "Upper byte of address register is non-zero (value: 0x0100)".to_string()
        })
    );
    assert_eq!(
        Address::decode_from_holding_registers(&[0xABCD]),
        Err(Error::InvalidData {
            details: "Upper byte of address register is non-zero (value: 0xABCD)".to_string()
        })
    );
    assert_eq!(
        Address::decode_from_holding_registers(&[0]),
        Err(Error::InvalidData {
            details: "The address value 0 is outside the valid assignable range of 1 to 247"
                .to_string()
        })
    );
    assert_eq!(
        Address::decode_from_holding_registers(&[248]),
        Err(Error::InvalidData {
            details: "The address value 248 is outside the valid assignable range of 1 to 247"
                .to_string()
        })
    );
    assert_eq!(
        Address::decode_from_holding_registers(&[255]),
        Err(Error::InvalidData {
            details: "The address value 255 is outside the valid assignable range of 1 to 247"
                .to_string()
        })
    );
}

#[test]
fn address_round_trip_over_all_numbers() {
    for number in 0..=u8::MAX {
        match Address::try_from(number) {
            Ok(address) => {
                assert!((1..=247).contains(&number));
                assert_eq!(*address, number);
                let word = address.encode_for_write_register();
                assert_eq!(word, u16::from(number));
                assert_eq!(Address::decode_from_holding_registers(&[word]), Ok(address));
            }
            Err(error) => {
                assert!(number == 0 || number > 247);
                assert_eq!(error, ErrorAddressOutOfRange(number));
            }
        }
    }
    assert_eq!(Address::broadcast().to_string(), "0xff");
    assert_eq!(Address::broadcast().encode_for_write_register(), 0x00FF);
    assert_eq!(*Address::default(), 1);
}

#[test]
fn channel_indices_and_correction_addresses() {
    for number in 0..=u8::MAX {
        match Channel::try_from(number) {
            Ok(channel) => {
                assert!(number <= 7);
                assert_eq!(
                    TemperatureCorrection::channel_address(channel),
                    0x0008 + u16::from(number)
                );
            }
            Err(error) => {
                assert!(number > 7);
                assert_eq!(error, ErrorChannelOutOfRange(number));
            }
        }
    }
}

#[test]
fn block_decode_needs_eight_words() {
    let seven = [0u16; 7];
    let eight = [0u16; 8];
    let nine = [0u16; 9];
    assert_eq!(
        Temperatures::decode_from_holding_registers(&seven),
        Err(Error::UnexpectedDataLength {
            expected: 8,
            got: 7
        })
    );
    assert_eq!(
        Temperatures::decode_from_holding_registers(&nine),
        Err(Error::UnexpectedDataLength {
            expected: 8,
            got: 9
        })
    );
    assert!(Temperatures::decode_from_holding_registers(&eight).is_ok());
    assert_eq!(
        TemperatureCorrection::decode_from_holding_registers(&seven),
        Err(Error::UnexpectedDataLength {
            expected: 8,
            got: 7
        })
    );
    assert_eq!(
        TemperatureCorrection::decode_from_holding_registers(&nine),
        Err(Error::UnexpectedDataLength {
            expected: 8,
            got: 9
        })
    );
    assert!(TemperatureCorrection::decode_from_holding_registers(&eight).is_ok());
}

#[test]
fn temperatures_scenario() {
    let temps =
        Temperatures::decode_from_holding_registers(&[219, 65424, 32768, 0, 0, 0, 0, 0]).unwrap();
    let expected = [
        Some(219),
        Some(-112),
        None,
        Some(0),
        Some(0),
        Some(0),
        Some(0),
        Some(0),
    ];
    for (index, reading) in temps.as_array().iter().enumerate() {
        assert_eq!(reading.tenths(), expected[index]);
    }
    for (index, reading) in temps.as_slice().iter().enumerate() {
        assert_eq!(reading.tenths(), expected[index]);
    }
    for (index, reading) in temps.iter().enumerate() {
        assert_eq!(reading.tenths(), expected[index]);
    }
    for index in 0..8u8 {
        let channel = Channel::try_from(index).unwrap();
        assert_eq!(temps.get(channel).tenths(), expected[usize::from(index)]);
        assert_eq!(temps[usize::from(index)].tenths(), expected[usize::from(index)]);
    }
}

#[test]
fn temperature_correction_accessors() {
    let words = [10, 65526, 0, 32768, 1, 2, 3, 4];
    let corrections = TemperatureCorrection::decode_from_holding_registers(&words).unwrap();
    let expected = [
        Some(10),
        Some(-10),
        Some(0),
        None,
        Some(1),
        Some(2),
        Some(3),
        Some(4),
    ];
    for (index, correction) in corrections.iter().enumerate() {
        assert_eq!(correction.tenths(), expected[index]);
        assert_eq!(corrections.as_array()[index].tenths(), expected[index]);
        assert_eq!(corrections.as_slice()[index].tenths(), expected[index]);
        assert_eq!(corrections[index].tenths(), expected[index]);
        let channel = Channel::try_from(index as u8).unwrap();
        assert_eq!(corrections.get(channel).tenths(), expected[index]);
    }
}

#[test]
fn automatic_report_decode_errors() {
    assert_eq!(
        AutomaticReport::decode_from_holding_registers(&[]),
        Err(Error::UnexpectedDataLength {
            expected: 1,
            got: 0
        })
    );
    assert_eq!(
        AutomaticReport::decode_from_holding_registers(&[0x0100]),
        Err(Error::InvalidData {
            details: "Upper byte of automatic report register is non-zero (value: 0x0100)"
                .to_string()
        })
    );
    assert_eq!(
        AutomaticReport::decode_from_holding_registers(&[0xFFFF]),
        Err(Error::InvalidData {
            details: "Upper byte of automatic report register is non-zero (value: 0xFFFF)"
                .to_string()
        })
    );
}

#[test]
fn automatic_report_round_trip_over_all_intervals() {
    for seconds in 0..=u8::MAX {
        let report = AutomaticReport::from(seconds);
        assert_eq!(*report, seconds);
        let word = report.encode_for_write_register();
        assert_eq!(word, u16::from(seconds));
        assert_eq!(
            AutomaticReport::decode_from_holding_registers(&[word]),
            Ok(report)
        );
        assert_eq!(AutomaticReport::try_from(report.as_duration()), Ok(report));
        assert_eq!(
            AutomaticReport::from_whole_seconds(u64::from(seconds)),
            Ok(report)
        );
        assert_eq!(report.is_disabled(), seconds == 0);
    }
}

#[test]
fn automatic_report_duration_truncation() {
    let report = AutomaticReport::try_from(Duration::from_millis(10_500)).unwrap();
    assert_eq!(report.as_secs(), 10);
    assert_eq!(
        AutomaticReport::try_from(Duration::from_secs(256)),
        Err(ErrorDurationOutOfRange(256))
    );
    assert_eq!(
        AutomaticReport::try_from(Duration::from_millis(255_999)),
        Ok(AutomaticReport::from(255))
    );
    assert_eq!(
        AutomaticReport::try_from(Duration::from_millis(256_999)),
        Err(ErrorDurationOutOfRange(256))
    );
    assert_eq!(
        AutomaticReport::from_whole_seconds(u64::MAX),
        Err(ErrorDurationOutOfRange(u64::MAX))
    );
    assert_eq!(AutomaticReport::from(10).to_string(), "10s");
    assert_eq!(AutomaticReport::DURATION_MIN, 0);
}

#[test]
fn error_messages() {
    assert_eq!(
        Error::UnexpectedDataLength {
            expected: 8,
            got: 7
        }
        .to_string(),
        "Invalid data length: expected 8, got 7"
    );
    assert_eq!(
        Error::InvalidData {
            details: "broken".to_string()
        }
        .to_string(),
        "Invalid data in register: broken"
    );
    assert_eq!(
        Error::InvalidValueCode {
            entity: "BaudRate".to_string(),
            code: 5
        }
        .to_string(),
        "Invalid value code for BaudRate: 5"
    );
    assert_eq!(
        Error::EncodeError {
            reason: "no".to_string()
        }
        .to_string(),
        "Cannot encode value: no"
    );
    assert_eq!(
        ErrorInvalidBaudRate(38400).to_string(),
        "Unsupported baud rate value: 38400. Must be 1200, 2400, 4800, 9600, or 19200."
    );
    assert_eq!(
        ErrorAddressOutOfRange(248).to_string(),
        "The address value 248 is outside the valid assignable range of 1 to 247"
    );
    assert_eq!(
        ErrorChannelOutOfRange(8).to_string(),
        "The channel value 8 is outside the valid range of 0 to 7"
    );
    assert_eq!(
        ErrorDurationOutOfRange(256).to_string(),
        "The duration 256 seconds is outside the valid automatic report range [0, 255] seconds"
    );
    assert_eq!(
        ErrorDegreeCelsiusOutOfRange(32768).to_string(),
        "The degree celsius value 3276.8 is outside the valid range of -3276.7 to 3276.7"
    );
    assert_eq!(
        ErrorDegreeCelsiusOutOfRange(-32768).to_string(),
        "The degree celsius value -3276.8 is outside the valid range of -3276.7 to 3276.7"
    );
}

#[test]
fn temperatures_are_ordered_by_their_tenths() {
    let cold = Temperature::try_from(-112).unwrap();
    let warm = Temperature::try_from(219).unwrap();
    let nan = Temperature::nan();
    assert!(cold < warm);
    assert!(warm > cold);
    assert!(cold <= cold);
    assert_eq!(cold.partial_cmp(&warm), Some(std::cmp::Ordering::Less));
    assert_eq!(warm.partial_cmp(&cold), Some(std::cmp::Ordering::Greater));
    assert_eq!(warm.partial_cmp(&warm), Some(std::cmp::Ordering::Equal));
    assert_eq!(nan.partial_cmp(&nan), Some(std::cmp::Ordering::Equal));
    assert_eq!(nan.partial_cmp(&warm), None);
    assert_eq!(cold.partial_cmp(&nan), None);
    assert!(!(nan < warm) && !(nan > warm));
}

#[test]
fn blocks_are_iterated_in_channel_order() {
    let words = [1, 2, 3, 4, 5, 6, 7, 32768];
    let temps = Temperatures::decode_from_holding_registers(&words).unwrap();
    let mut seen = Vec::new();
    for reading in &temps {
        seen.push(reading.tenths());
    }
    assert_eq!(
        seen,
        vec![Some(1), Some(2), Some(3), Some(4), Some(5), Some(6), Some(7), None]
    );
    let corrections = TemperatureCorrection::decode_from_holding_registers(&words).unwrap();
    let mut seen = Vec::new();
    for correction in &corrections {
        seen.push(correction.tenths());
    }
    assert_eq!(
        seen,
        vec![Some(1), Some(2), Some(3), Some(4), Some(5), Some(6), Some(7), None]
    );
    assert_eq!(temps, Temperatures::decode_from_holding_registers(&words).unwrap());

    let mut seen = Vec::new();
    for reading in temps {
        seen.push(reading.tenths());
    }
    for correction in corrections {
        seen.push(correction.tenths());
    }
    assert_eq!(seen.len(), 16);
    assert_eq!(seen[6], Some(7));
    assert_eq!(seen[7], None);
    assert_eq!(seen[8], Some(1));
}
