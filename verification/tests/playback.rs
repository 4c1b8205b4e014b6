use cores3::board::playback::{PlayAction, PlayEvent, PlayPhase, Playback};
use cores3::board::speaker::{AMP_SETTLE_MS, DMA_BUF_SIZE};
use cores3::error::{Error, ErrorKind};

fn ok() -> Result<(), Error> {
    Ok(())
}

#[test]
fn playback_runs_in_order() {
    let mut p = Playback::new();
    assert!(matches!(p.step(PlayEvent::Started(ok())), PlayAction::EnableAmp));
    assert!(matches!(p.step(PlayEvent::AmpSwitched(ok())), PlayAction::Wait(AMP_SETTLE_MS)));
    assert!(matches!(p.step(PlayEvent::Waited), PlayAction::PushSamples));
    assert!(matches!(
        p.step(PlayEvent::SamplesPushed { result: Ok(8), space: 9 }),
        PlayAction::PushSamples
    ));
    let remaining = DMA_BUF_SIZE;
    assert!(matches!(
        p.step(PlayEvent::SamplesPushed { result: Ok(4), space: 8 }),
        PlayAction::PushSilence(r) if r == remaining
    ));
    assert!(matches!(
        p.step(PlayEvent::SilencePushed(Ok(8000))),
        PlayAction::PushSilence(184)
    ));
    assert!(!p.accepts(&PlayEvent::SilencePushed(Ok(185))));
    assert!(matches!(p.step(PlayEvent::SilencePushed(Ok(184))), PlayAction::DisableAmp));
    assert_eq!(p.phase(), PlayPhase::Disabling);
    assert!(matches!(p.step(PlayEvent::AmpSwitched(ok())), PlayAction::Wait(AMP_SETTLE_MS)));
    assert!(matches!(p.step(PlayEvent::Waited), PlayAction::StopTransfer));
    assert!(matches!(p.step(PlayEvent::Stopped(ok())), PlayAction::Finish(Ok(()))));
    assert_eq!(p.phase(), PlayPhase::Done);
}

#[test]
fn playback_without_a_transfer_never_touches_the_amp() {
    let mut p = Playback::new();
    match p.step(PlayEvent::Started(Err(Error::hal("dma".to_string())))) {
        PlayAction::Finish(Err(e)) => assert_eq!(*e.kind(), ErrorKind::Hal("dma".to_string())),
        other => panic!("unexpected {:?}", other),
    }
    assert!(!p.accepts(&PlayEvent::AmpSwitched(ok())));
}

#[test]
fn failures_still_switch_the_amp_off_before_stopping() {
    let mut p = Playback::new();
    p.step(PlayEvent::Started(ok()));
    assert!(matches!(
        p.step(PlayEvent::AmpSwitched(Err(Error::hal("nack".to_string())))),
        PlayAction::DisableAmp
    ));
    assert!(matches!(p.step(PlayEvent::AmpSwitched(ok())), PlayAction::Wait(_)));
    assert!(matches!(p.step(PlayEvent::Waited), PlayAction::StopTransfer));
    match p.step(PlayEvent::Stopped(Err(Error::hal("stop".to_string())))) {
        PlayAction::Finish(Err(e)) => assert_eq!(e.to_string(), "nack"),
        other => panic!("unexpected {:?}", other),
    }

    let mut p = Playback::new();
    p.step(PlayEvent::Started(ok()));
    p.step(PlayEvent::AmpSwitched(ok()));
    p.step(PlayEvent::Waited);
    assert!(matches!(
        p.step(PlayEvent::SamplesPushed { result: Err(Error::hal("push".to_string())), space: 0 }),
        PlayAction::DisableAmp
    ));
    p.step(PlayEvent::AmpSwitched(Err(Error::hal("off".to_string()))));
    p.step(PlayEvent::Waited);
    match p.step(PlayEvent::Stopped(ok())) {
        PlayAction::Finish(Err(e)) => assert_eq!(e.to_string(), "push"),
        other => panic!("unexpected {:?}", other),
    }
}

#[test]
fn switching_off_or_stopping_can_fail_the_playback() {
    let mut p = Playback::new();
    p.step(PlayEvent::Started(ok()));
    p.step(PlayEvent::AmpSwitched(ok()));
    p.step(PlayEvent::Waited);
    p.step(PlayEvent::SamplesPushed { result: Ok(0), space: 2 });
    assert!(matches!(
        p.step(PlayEvent::SilencePushed(Err(Error::hal("silence".to_string())))),
        PlayAction::DisableAmp
    ));
    p.step(PlayEvent::AmpSwitched(ok()));
    p.step(PlayEvent::Waited);
    match p.step(PlayEvent::Stopped(Err(Error::new(ErrorKind::Timeout)))) {
        PlayAction::Finish(Err(e)) => assert_eq!(e.to_string(), "silence"),
        other => panic!("unexpected {:?}", other),
    }
    assert!(!p.accepts(&PlayEvent::Waited));
}

#[test]
fn delays_count_their_spins() {
    // the spin counts are ghost values; the calls return and can be repeated
    let _ = cores3::delay::delay_ms(2);
    let mut wait = cores3::delay::BusyWait;
    let _ = wait.delay_ns(40);
}
