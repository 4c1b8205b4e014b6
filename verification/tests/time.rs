use cores3::drivers::bm8563::{decode_time, encode_time, REG_SECONDS};
use cores3::time::{bcd_to_dec, dec_to_bcd, Time};

#[test]
fn total_seconds() {
    let t = Time {
        hours: 1,
        minutes: 2,
        seconds: 3,
    };
    assert_eq!(t.to_total_seconds(), 3723);

    let t = Time {
        hours: 23,
        minutes: 59,
        seconds: 59,
    };
    assert_eq!(t.to_total_seconds(), 86399);
}

#[test]
fn bcd_round_trip_over_the_rtc_range() {
    for dec in 0..=59u8 {
        assert_eq!(bcd_to_dec(dec_to_bcd(dec)), dec, "dec={dec}");
    }
}

#[test]
fn bcd_encoding_is_packed_nibbles() {
    assert_eq!(dec_to_bcd(0), 0x00);
    assert_eq!(dec_to_bcd(9), 0x09);
    assert_eq!(dec_to_bcd(10), 0x10);
    assert_eq!(dec_to_bcd(59), 0x59);

    assert_eq!(bcd_to_dec(0x00), 0);
    assert_eq!(bcd_to_dec(0x23), 23);
    assert_eq!(bcd_to_dec(0x59), 59);
}

#[test]
fn bcd_round_trip_up_to_99() {
    for dec in 0..=99u8 {
        assert_eq!(bcd_to_dec(dec_to_bcd(dec)), dec);
    }
    for bcd in 0..=255u8 {
        if bcd >> 4 <= 9 && bcd & 0x0f <= 9 {
            assert_eq!(dec_to_bcd(bcd_to_dec(bcd)), bcd);
        }
    }
}

#[test]
fn bcd_tens_above_15_lose_their_high_bits() {
    // 200 / 10 = 20 tens: 20 << 4 = 320, which keeps 64 in a byte
    assert_eq!(dec_to_bcd(200), 64);
    // 25 tens: 25 << 4 = 400, which keeps 144 in a byte
    assert_eq!(dec_to_bcd(255), 0x95);
    assert_eq!(bcd_to_dec(0xff), 165);
}

#[test]
fn total_seconds_of_out_of_range_fields() {
    let t = Time {
        hours: 255,
        minutes: 255,
        seconds: 255,
    };
    assert_eq!(t.to_total_seconds(), 255 * 3600 + 255 * 60 + 255);
}

#[test]
fn time_displays_without_padding() {
    let t = Time {
        hours: 1,
        minutes: 2,
        seconds: 3,
    };
    assert_eq!(t.to_string(), "1:2:3");
    let t = Time {
        hours: 23,
        minutes: 0,
        seconds: 59,
    };
    assert_eq!(t.to_string(), "23:0:59");
    let t = Time {
        hours: 255,
        minutes: 100,
        seconds: 10,
    };
    assert_eq!(t.to_string(), "255:100:10");
}

#[test]
fn rtc_registers_are_masked_bcd() {
    let t = decode_time([0x59, 0x34, 0x12]);
    assert_eq!(
        t,
        Time {
            hours: 12,
            minutes: 34,
            seconds: 59
        }
    );
    // the integrity bit of the seconds and the unused top bits are ignored
    let t = decode_time([0x80 | 0x07, 0x80 | 0x45, 0xc0 | 0x23]);
    assert_eq!(
        t,
        Time {
            hours: 23,
            minutes: 45,
            seconds: 7
        }
    );
}

#[test]
fn rtc_read_after_write_gives_the_time_back() {
    for hours in 0..24u8 {
        for minutes in [0u8, 1, 30, 59] {
            for seconds in [0u8, 9, 10, 59] {
                let t = Time {
                    hours,
                    minutes,
                    seconds,
                };
                let bytes = encode_time(t);
                assert_eq!(bytes[0], REG_SECONDS);
                assert_eq!(decode_time([bytes[1], bytes[2], bytes[3]]), t);
            }
        }
    }
    let bytes = encode_time(Time {
        hours: 21,
        minutes: 43,
        seconds: 5,
    });
    assert_eq!(bytes, [0x02, 0x05, 0x43, 0x21]);
}
