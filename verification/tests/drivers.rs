use cores3::drivers::aw88298;
use cores3::drivers::aw9523::{self, Aw9523};
use cores3::drivers::axp2101::{self, Axp2101};
use cores3::drivers::bmm150;
use cores3::drivers::ft6336u::{decode_touch, TouchPoint};
use cores3::drivers::ltr553;
use cores3::drivers::{u16_from_be_bytes, u16_from_le_bytes, write16_bytes, write_bytes, Step};
use cores3::error::ErrorKind;
use cores3::firmware::ltr553::decode_als as firmware_decode_als;

#[test]
fn register_write_bytes() {
    assert_eq!(write_bytes(0x92, 13), [0x92, 13]);
    assert_eq!(write16_bytes(0x61, 0x0673), [0x61, 0x06, 0x73]);
    assert_eq!(u16_from_be_bytes(0x12, 0x34), 0x1234);
    assert_eq!(u16_from_le_bytes(0x12, 0x34), 0x3412);
}

#[test]
fn touch_needs_a_touch_count() {
    assert_eq!(decode_touch([0x00, 0x01, 0x02, 0x03, 0x04]), None);
    assert_eq!(decode_touch([0xf0, 0x01, 0x02, 0x03, 0x04]), None);
    assert_eq!(
        decode_touch([0x01, 0x01, 0x40, 0x00, 0xf0]),
        Some(TouchPoint { x: 0x140, y: 0xf0 })
    );
    // event flags in the high nibble are not part of the coordinates
    assert_eq!(
        decode_touch([0x02, 0x8f, 0xff, 0x4f, 0xff]),
        Some(TouchPoint { x: 0xfff, y: 0xfff })
    );
}

#[test]
fn light_sensor_averages_both_channels() {
    // ch1 = 0x0100, ch0 = 0x0300
    assert_eq!(ltr553::decode_als([0x00, 0x01, 0x00, 0x03]), 0x0200);
    assert_eq!(ltr553::decode_als([0x01, 0x00, 0x00, 0x00]), 0);
    // the sum does not wrap
    assert_eq!(ltr553::decode_als([0xff, 0xff, 0xff, 0xff]), 0xffff);
    assert_eq!(ltr553::decode_als([0xff, 0xff, 0x01, 0x00]), 0x8000);
}

#[test]
fn proximity_is_eleven_bits() {
    assert_eq!(ltr553::decode_proximity(0x34, 0x02), 0x234);
    assert_eq!(ltr553::decode_proximity(0xff, 0xff), 0x7ff);
}

#[test]
fn light_sensor_init_sequence() {
    let steps = ltr553::init_steps();
    assert_eq!(steps.len(), 9);
    assert_eq!(steps[0], Step::Write { reg: 0x80, val: 0x00 });
    assert_eq!(steps[2], Step::Write { reg: 0x82, val: 0x7f });
    assert_eq!(steps[7], Step::Write { reg: 0x81, val: 0x02 });
    assert_eq!(steps[8], Step::DelayMs(600));
}

#[test]
fn pmic_decodes_measurements() {
    assert_eq!(axp2101::decode_adc_mv([0x10, 0x68]), 0x1068);
    assert_eq!(axp2101::decode_adc_mv([0xff, 0xff]), 0x3fff);
    assert_eq!(axp2101::decode_battery_level(87), 87);
    assert_eq!(axp2101::decode_battery_level(200), -56);
    assert!(axp2101::decode_charging(0x04));
    assert!(axp2101::decode_charging(0xff));
    assert!(!axp2101::decode_charging(0xfb));
}

#[test]
fn pmic_init_and_backlight() {
    let steps = axp2101::init_steps();
    assert_eq!(
        steps,
        vec![
            Step::Write { reg: 0x92, val: 13 },
            Step::Write { reg: 0x93, val: 28 },
            Step::Write { reg: 0x94, val: 28 },
            Step::Write { reg: 0x95, val: 28 },
            Step::Write { reg: 0x99, val: 28 },
            Step::Write { reg: 0x90, val: 0xbf },
            Step::Write { reg: 0x30, val: 0x0f },
            Step::DelayMs(10),
        ]
    );
    assert_eq!(Axp2101::backlight_voltage_step(), Step::Write { reg: 0x99, val: 0x1c });
    assert_eq!(Axp2101::backlight_ldo_enable(0x3f), 0xbf);
    assert_eq!(Axp2101::backlight_ldo_enable(0x80), 0x80);
}

#[test]
fn magnetometer_decodes_left_aligned_fields() {
    let raw = [0x08, 0x00, 0xf8, 0xff, 0xff, 0xff];
    assert_eq!(bmm150::decode(&raw), (1, -1, -1));
    let raw = [0x00, 0x80, 0xff, 0x7f, 0x02, 0x00];
    assert_eq!(bmm150::decode(&raw), (-4096, 4095, 1));
}

#[test]
fn io_expander_sequences() {
    let init = aw9523::init();
    assert_eq!(init.len(), 7);
    assert_eq!(init[0], Step::Write { reg: 0x02, val: 0b101 });
    assert_eq!(init[1], Step::Write { reg: 0x03, val: 0b11 });
    assert_eq!(init[6], Step::Write { reg: 0x13, val: 0xff });
    assert_eq!(Aw9523::init(), init);
    let reset = Aw9523.lcd_reset();
    assert_eq!(
        reset,
        vec![
            Step::Write { reg: 0x03, val: 0x00 },
            Step::DelayMs(50),
            Step::Write { reg: 0x03, val: 0x03 },
            Step::DelayMs(200),
        ]
    );
    assert_eq!(aw9523::reset_lcd(), reset);
    assert_eq!(aw9523::write(0x11, 0x10), Step::Write { reg: 0x11, val: 0x10 });
}

#[test]
fn amplifier_sample_rates() {
    assert_eq!(aw88298::sample_rate_index(8000).unwrap(), 0);
    assert_eq!(aw88298::sample_rate_index(44100).unwrap(), 7);
    assert_eq!(aw88298::sample_rate_index(96000).unwrap(), 9);
    let err = aw88298::sample_rate_index(44000).unwrap_err();
    assert_eq!(*err.kind(), ErrorKind::InvalidArgument);
    assert_eq!(err.to_string(), "Invalid argument (unsupported sample rate)");
}

#[test]
fn amplifier_chip_id() {
    assert!(aw88298::check_chip_id(0x1852).is_ok());
    let err = aw88298::check_chip_id(0x1853).unwrap_err();
    assert_eq!(*err.kind(), ErrorKind::NotInitialized);
    assert_eq!(err.to_string(), "Not initialized (AW88298 not found)");
}

#[test]
fn amplifier_registers() {
    assert_eq!(aw88298::set_enabled(true), Step::Write16 { reg: 0x04, val: 0x4040 });
    assert_eq!(aw88298::set_enabled(false), Step::Write16 { reg: 0x04, val: 0x4003 });
    assert_eq!(aw88298::set_volume(255), Step::Write16 { reg: 0x0c, val: 0x0064 });
    assert_eq!(aw88298::set_volume(0), Step::Write16 { reg: 0x0c, val: 0xc064 });
    // (255 - 64) * 192 / 255 = 143
    assert_eq!(aw88298::set_volume(64), Step::Write16 { reg: 0x0c, val: (143 << 8) | 0x64 });
    assert_eq!(aw88298::set_mute(0x0008, true), Step::Write16 { reg: 0x05, val: 0x0018 });
    assert_eq!(aw88298::set_mute(0xffff, false), Step::Write16 { reg: 0x05, val: 0xffef });
    assert_eq!(aw88298::decode_register([0x18, 0x52]), 0x1852);
}

#[test]
fn amplifier_init_sequence() {
    let steps = aw88298::init_steps(7);
    assert_eq!(
        steps,
        vec![
            Step::Write16 { reg: 0x61, val: 0x0673 },
            Step::Write16 { reg: 0x04, val: 0x4003 },
            Step::Write16 { reg: 0x05, val: 0x0008 },
            Step::Write16 { reg: 0x06, val: 0x14c7 },
            Step::Write16 { reg: 0x0c, val: 0x0064 },
        ]
    );
}

#[test]
fn firmware_light_level_wraps_the_sum() {
    assert_eq!(firmware_decode_als([0x00, 0x01, 0x00, 0x03]), 0x0200);
    assert_eq!(firmware_decode_als([0xff, 0xff, 0x01, 0x00]), 0);
    assert_eq!(firmware_decode_als([0xff, 0xff, 0x03, 0x00]), 1);
}
