use cores3::board::camera::{Capture, CaptureAction, MAX_RESTARTS};
use cores3::board::speaker::{
    check_tone_frequency, fill, is_final_push, play_outcome, silence_chunk, tone_sample,
    tone_sample_count, TONE_AMPLITUDE,
};
use cores3::board::{bus_recovery_steps, elapsed_seconds, wait_is_over, RecoveryStep};
use cores3::delay::{delay_ms, BusyWait};
use cores3::error::{Error, ErrorKind};

#[test]
fn capture_copies_chunks_in_order() {
    let mut out = vec![0u8; 8];
    let mut c = Capture::new();
    assert_eq!(c.on_peek(&mut out, &[1, 2, 3], false, false), CaptureAction::Continue);
    assert_eq!(c.total(), 3);
    assert_eq!(c.on_peek(&mut out, &[4, 5], true, false), CaptureAction::Finished(5));
    assert_eq!(out, vec![1, 2, 3, 4, 5, 0, 0, 0]);
}

#[test]
fn capture_stops_when_the_buffer_is_full() {
    let mut out = vec![0u8; 4];
    let mut c = Capture::new();
    assert_eq!(c.on_peek(&mut out, &[1, 2, 3], false, false), CaptureAction::Continue);
    assert_eq!(c.on_peek(&mut out, &[4, 5, 6], false, false), CaptureAction::Finished(4));
    assert_eq!(out, vec![1, 2, 3, 4]);
}

#[test]
fn capture_waits_restarts_and_gives_up() {
    let mut out = vec![0u8; 4];
    let mut c = Capture::new();
    assert_eq!(c.on_peek(&mut out, &[], false, false), CaptureAction::Continue);
    for _ in 0..MAX_RESTARTS {
        assert_eq!(c.on_peek(&mut out, &[], false, true), CaptureAction::Restart);
    }
    assert_eq!(c.on_peek(&mut out, &[], false, true), CaptureAction::TimedOut);
    let e = Capture::timeout_error();
    assert_eq!(*e.kind(), ErrorKind::Timeout);
    assert_eq!(e.to_string(), "Timeout (camera produced no data)");
}

#[test]
fn capture_data_clears_the_restart_count_and_keeps_what_was_captured() {
    let mut out = vec![0u8; 4];
    let mut c = Capture::new();
    assert_eq!(c.on_peek(&mut out, &[9], false, false), CaptureAction::Continue);
    for _ in 0..MAX_RESTARTS {
        assert_eq!(c.on_peek(&mut out, &[], false, true), CaptureAction::Restart);
    }
    assert_eq!(c.on_peek(&mut out, &[8], false, false), CaptureAction::Continue);
    for _ in 0..MAX_RESTARTS {
        assert_eq!(c.on_peek(&mut out, &[], false, true), CaptureAction::Restart);
    }
    assert_eq!(c.on_peek(&mut out, &[7], true, false), CaptureAction::Finished(3));
    assert_eq!(out, vec![9, 8, 7, 0]);
}

#[test]
fn fill_writes_little_endian_samples() {
    let mut dst = [0xaau8; 7];
    let n = fill(&mut dst, &[1, -1, 0x1234]);
    assert_eq!(n, 6);
    assert_eq!(dst, [0x01, 0x00, 0xff, 0xff, 0x34, 0x12, 0xaa]);

    let mut dst = [0xaau8; 6];
    let n = fill(&mut dst, &[-32768]);
    assert_eq!(n, 2);
    assert_eq!(dst, [0x00, 0x80, 0xaa, 0xaa, 0xaa, 0xaa]);

    let mut dst = [0u8; 4];
    assert_eq!(fill(&mut dst, &[1, 2, 3, 4]), 4);
    assert_eq!(dst, [1, 0, 2, 0]);
}

#[test]
fn final_push_and_silence() {
    assert!(!is_final_push(8, 8));
    assert!(!is_final_push(8, 9));
    assert!(is_final_push(6, 8));
    assert!(is_final_push(0, 2));
    assert!(!is_final_push(0, 1));
    assert_eq!(silence_chunk(100, 30), 30);
    assert_eq!(silence_chunk(10, 30), 10);
}

#[test]
fn play_outcome_reports_the_first_failure() {
    let e = play_outcome(
        Err(Error::hal("dma".to_string())),
        Err(Error::new(ErrorKind::Timeout)),
        Ok(()),
    )
    .unwrap_err();
    assert_eq!(*e.kind(), ErrorKind::Hal("dma".to_string()));
    let e = play_outcome(Ok(()), Err(Error::new(ErrorKind::Timeout)), Err(Error::hal("x".to_string())))
        .unwrap_err();
    assert_eq!(*e.kind(), ErrorKind::Timeout);
    let e = play_outcome(Ok(()), Ok(()), Err(Error::hal("stop".to_string()))).unwrap_err();
    assert_eq!(e.to_string(), "stop");
    assert!(play_outcome(Ok(()), Ok(()), Ok(())).is_ok());
}

#[test]
fn tone_frequency_bounds() {
    assert!(check_tone_frequency(1).is_ok());
    assert!(check_tone_frequency(22050).is_ok());
    let e = check_tone_frequency(0).unwrap_err();
    assert_eq!(*e.kind(), ErrorKind::InvalidArgument);
    assert_eq!(e.to_string(), "Invalid argument (tone frequency)");
    assert!(check_tone_frequency(22051).is_err());
}

#[test]
fn tone_is_a_square_wave() {
    assert_eq!(tone_sample_count(200), 8820);
    assert_eq!(tone_sample_count(1), 44);
    assert_eq!(tone_sample_count(u32::MAX), 44100 * u32::MAX as u64 / 1000);
    // 441 Hz: 100 samples per period, 50 high then 50 low
    for i in 0..50u64 {
        assert_eq!(tone_sample(i, 441), TONE_AMPLITUDE);
        assert_eq!(tone_sample(i + 50, 441), -TONE_AMPLITUDE);
        assert_eq!(tone_sample(i + 100, 441), TONE_AMPLITUDE);
    }
    assert_eq!(TONE_AMPLITUDE, i16::MAX / 4);
    // no overflow far into a long tone
    let _ = tone_sample(u64::MAX, u32::MAX);
}

#[test]
fn wait_measures_across_midnight() {
    assert_eq!(elapsed_seconds(100, 160), 60);
    assert_eq!(elapsed_seconds(86390, 5), 15);
    assert!(wait_is_over(86390, 5, 15));
    assert!(!wait_is_over(86390, 5, 16));
    assert!(wait_is_over(10, 10, 0));
}

#[test]
fn bus_recovery_clocks_nine_pulses_only_when_sda_is_held() {
    assert!(bus_recovery_steps(false).is_empty());
    let steps = bus_recovery_steps(true);
    assert_eq!(steps.len(), 37);
    for k in 0..9 {
        assert_eq!(steps[4 * k], RecoveryStep::DelayMs(1));
        assert_eq!(steps[4 * k + 1], RecoveryStep::SclLow);
        assert_eq!(steps[4 * k + 2], RecoveryStep::DelayMs(1));
        assert_eq!(steps[4 * k + 3], RecoveryStep::SclHigh);
    }
    assert_eq!(steps[36], RecoveryStep::DelayMs(5));
}

#[test]
fn busy_waits_return() {
    BusyWait.delay_ns(1000);
    delay_ms(1);
    delay_ms(0);
}
