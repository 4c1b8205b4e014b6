//! The order of a playback: the amplifier is only on while the I2S clock
//! runs, and is switched off, even after a failure, before the clock stops.

use super::speaker::{combined_outcome, is_final_push, play_outcome, AMP_SETTLE_MS, DMA_BUF_SIZE};
use crate::error::Error;
use vstd::prelude::*;

verus! {

/// Where a playback stands.
#[derive(Debug, Clone, Copy, PartialEq, Eq, Structural)]
pub enum PlayPhase {
    /// The DMA transfer of a silent buffer is being started.
    Starting,
    /// The amplifier is being switched on.
    Enabling,
    /// The amplifier is settling after being switched on.
    Settling,
    /// Samples are being pushed.
    Streaming,
    /// A buffer's worth of silence is being pushed after the samples.
    Draining,
    /// The amplifier is being switched off.
    Disabling,
    /// The amplifier is settling after being switched off.
    CoolingDown,
    /// The DMA transfer is being stopped.
    Stopping,
    /// The playback is over.
    Done,
}

/// What happened since the last action of a playback.
#[derive(Debug)]
pub enum PlayEvent {
    /// The DMA transfer started, or failed to.
    Started(Result<(), Error>),
    /// The amplifier was switched on or off, or the register write failed.
    AmpSwitched(Result<(), Error>),
    /// The requested wait is over.
    Waited,
    /// A push of samples: the bytes that `fill` wrote and the space it was
    /// offered, or the push failed.
    SamplesPushed { result: Result<usize, Error>, space: usize },
    /// A push of silence: the bytes pushed, or the push failed.
    SilencePushed(Result<usize, Error>),
    /// The DMA transfer was stopped, or stopping it failed.
    Stopped(Result<(), Error>),
}

/// What the caller does next for a playback.
#[derive(Debug)]
pub enum PlayAction {
    /// Switch the amplifier on.
    EnableAmp,
    /// Wait this many milliseconds.
    Wait(u32),
    /// Push the next samples with `fill`.
    PushSamples,
    /// Push zeros: `silence_chunk(space, remaining)` of them, `remaining` given here.
    PushSilence(usize),
    /// Switch the amplifier off.
    DisableAmp,
    /// Stop the DMA transfer.
    StopTransfer,
    /// The playback is over, with this outcome.
    Finish(Result<(), Error>),
}

/// The state of a playback: its phase, how playing went and how switching
/// the amplifier off went (once known), and the silence still owed.
pub struct PlayState {
    pub phase: PlayPhase,
    pub played: Option<Result<(), Error>>,
    pub disabled: Option<Result<(), Error>>,
    pub silence: usize,
}

/// The events that a playback can take in each phase.
pub open spec fn accepts(s: PlayState, e: PlayEvent) -> bool {
    match e {
        PlayEvent::Started(_) => s.phase == PlayPhase::Starting,
        PlayEvent::AmpSwitched(_) => s.phase == PlayPhase::Enabling || s.phase
            == PlayPhase::Disabling,
        PlayEvent::Waited => s.phase == PlayPhase::Settling || s.phase == PlayPhase::CoolingDown,
        PlayEvent::SamplesPushed { .. } => s.phase == PlayPhase::Streaming,
        PlayEvent::SilencePushed(r) => s.phase == PlayPhase::Draining && (r matches Ok(n) ==> n
            <= s.silence),
        PlayEvent::Stopped(_) => s.phase == PlayPhase::Stopping,
    }
}

/// What each phase has recorded: how playing went once the amplifier is
/// being switched off, how switching it off went once it is settling or the
/// transfer is stopping, and a positive amount of silence while draining.
pub open spec fn play_state_wf(s: PlayState) -> bool {
    &&& (s.phase == PlayPhase::Disabling || s.phase == PlayPhase::CoolingDown || s.phase
        == PlayPhase::Stopping) ==> s.played is Some
    &&& (s.phase == PlayPhase::CoolingDown || s.phase == PlayPhase::Stopping) ==> s.disabled is Some
    &&& s.phase == PlayPhase::Draining ==> 0 < s.silence <= DMA_BUF_SIZE
}

/// Playing has ended with `outcome`: switch the amplifier off next.
pub open spec fn to_disabling(s: PlayState, outcome: Result<(), Error>) -> (PlayState, PlayAction) {
    (
        PlayState { phase: PlayPhase::Disabling, played: Some(outcome), disabled: s.disabled, silence: s.silence },
        PlayAction::DisableAmp,
    )
}

/// `s` in another phase.
pub open spec fn in_phase(s: PlayState, phase: PlayPhase) -> PlayState {
    PlayState { phase, played: s.played, disabled: s.disabled, silence: s.silence }
}

/// One step of playing: the amplifier is switched on only once the transfer
/// clocks out silence, so that BCLK is stable; a failure at any point after
/// that still switches the amplifier off, lets it settle, and only then stops
/// the transfer; the outcome is the first failure of playing, switching off
/// and stopping.
pub open spec fn play_transition(s: PlayState, e: PlayEvent) -> (PlayState, PlayAction) {
    match e {
        PlayEvent::Started(Err(err)) => (in_phase(s, PlayPhase::Done), PlayAction::Finish(Err(err))),
        PlayEvent::Started(Ok(())) => (in_phase(s, PlayPhase::Enabling), PlayAction::EnableAmp),
        PlayEvent::AmpSwitched(r) => if s.phase == PlayPhase::Enabling {
            match r {
                Ok(()) => (in_phase(s, PlayPhase::Settling), PlayAction::Wait(AMP_SETTLE_MS)),
                Err(err) => to_disabling(s, Err(err)),
            }
        } else {
            (
                PlayState { phase: PlayPhase::CoolingDown, played: s.played, disabled: Some(r), silence: s.silence },
                PlayAction::Wait(AMP_SETTLE_MS),
            )
        },
        PlayEvent::Waited => if s.phase == PlayPhase::Settling {
            (in_phase(s, PlayPhase::Streaming), PlayAction::PushSamples)
        } else {
            (in_phase(s, PlayPhase::Stopping), PlayAction::StopTransfer)
        },
        PlayEvent::SamplesPushed { result: Err(err), .. } => to_disabling(s, Err(err)),
        PlayEvent::SamplesPushed { result: Ok(n), space } => if n < space - space % 2 {
            (
                PlayState { phase: PlayPhase::Draining, played: s.played, disabled: s.disabled, silence: DMA_BUF_SIZE },
                PlayAction::PushSilence(DMA_BUF_SIZE),
            )
        } else {
            (s, PlayAction::PushSamples)
        },
        PlayEvent::SilencePushed(Err(err)) => to_disabling(s, Err(err)),
        PlayEvent::SilencePushed(Ok(n)) => if s.silence - n > 0 {
            (
                PlayState { phase: s.phase, played: s.played, disabled: s.disabled, silence: (s.silence - n) as usize },
                PlayAction::PushSilence((s.silence - n) as usize),
            )
        } else {
            to_disabling(s, Ok(()))
        },
        PlayEvent::Stopped(r) => (
            PlayState { phase: PlayPhase::Done, played: None, disabled: None, silence: s.silence },
            PlayAction::Finish(combined_outcome(s.played->0, s.disabled->0, r)),
        ),
    }
}

/// The decisions of playing a stream of samples. The caller first fills the
/// DMA buffer with silence and starts the circular transfer, reports
/// `Started`, and then performs each action returned and reports what came of it.
pub struct Playback {
    phase: PlayPhase,
    played: Option<Result<(), Error>>,
    disabled: Option<Result<(), Error>>,
    silence: usize,
}

impl View for Playback {
    type V = PlayState;

    closed spec fn view(&self) -> PlayState {
        PlayState { phase: self.phase, played: self.played, disabled: self.disabled, silence: self.silence }
    }
}

impl Playback {
    /// A playback whose transfer is being started.
    pub fn new() -> (p: Playback)
        ensures
            p@ == (PlayState { phase: PlayPhase::Starting, played: None, disabled: None, silence: 0 }),
    {
        Playback { phase: PlayPhase::Starting, played: None, disabled: None, silence: 0 }
    }

    /// Whether the playback can take `event` now.
    pub fn accepts(&self, event: &PlayEvent) -> (ok: bool)
        ensures
            ok == accepts(self@, *event),
    {
        match event {
            PlayEvent::Started(_) => self.phase == PlayPhase::Starting,
            PlayEvent::AmpSwitched(_) => self.phase == PlayPhase::Enabling || self.phase
                == PlayPhase::Disabling,
            PlayEvent::Waited => self.phase == PlayPhase::Settling || self.phase
                == PlayPhase::CoolingDown,
            PlayEvent::SamplesPushed { .. } => self.phase == PlayPhase::Streaming,
            PlayEvent::SilencePushed(r) => self.phase == PlayPhase::Draining && match r {
                Ok(n) => *n <= self.silence,
                Err(_) => true,
            },
            PlayEvent::Stopped(_) => self.phase == PlayPhase::Stopping,
        }
    }

    /// The phase of the playback.
    pub fn phase(&self) -> (phase: PlayPhase)
        ensures
            phase == self@.phase,
    {
        self.phase
    }

    fn finish_playing(&mut self, outcome: Result<(), Error>) -> (action: PlayAction)
        ensures
            (final(self)@, action) == to_disabling(old(self)@, outcome),
    {
        self.phase = PlayPhase::Disabling;
        self.played = Some(outcome);
        PlayAction::DisableAmp
    }

    /// Takes what came of the last action and returns the next one.
    pub fn step(&mut self, event: PlayEvent) -> (action: PlayAction)
        requires
            play_state_wf(old(self)@),
            accepts(old(self)@, event),
        ensures
            play_state_wf(final(self)@),
            (final(self)@, action) == play_transition(old(self)@, event),
    {
        match event {
            PlayEvent::Started(r) => match r {
                Err(err) => {
                    self.phase = PlayPhase::Done;
                    PlayAction::Finish(Err(err))
                },
                Ok(()) => {
                    self.phase = PlayPhase::Enabling;
                    PlayAction::EnableAmp
                },
            },
            PlayEvent::AmpSwitched(r) => {
                if self.phase == PlayPhase::Enabling {
                    match r {
                        Ok(()) => {
                            self.phase = PlayPhase::Settling;
                            PlayAction::Wait(AMP_SETTLE_MS)
                        },
                        Err(err) => self.finish_playing(Err(err)),
                    }
                } else {
                    self.phase = PlayPhase::CoolingDown;
                    self.disabled = Some(r);
                    PlayAction::Wait(AMP_SETTLE_MS)
                }
            },
            PlayEvent::Waited => {
                if self.phase == PlayPhase::Settling {
                    self.phase = PlayPhase::Streaming;
                    PlayAction::PushSamples
                } else {
                    self.phase = PlayPhase::Stopping;
                    PlayAction::StopTransfer
                }
            },
            PlayEvent::SamplesPushed { result, space } => match result {
                Err(err) => self.finish_playing(Err(err)),
                Ok(n) => {
                    if is_final_push(n, space) {
                        self.phase = PlayPhase::Draining;
                        self.silence = DMA_BUF_SIZE;
                        PlayAction::PushSilence(DMA_BUF_SIZE)
                    } else {
                        PlayAction::PushSamples
                    }
                },
            },
            PlayEvent::SilencePushed(r) => match r {
                Err(err) => self.finish_playing(Err(err)),
                Ok(n) => {
                    let left = self.silence - n;
                    if left > 0 {
                        self.silence = left;
                        PlayAction::PushSilence(left)
                    } else {
                        self.finish_playing(Ok(()))
                    }
                },
            },
            PlayEvent::Stopped(r) => {
                let played = self.played.take();
                let disabled = self.disabled.take();
                self.phase = PlayPhase::Done;
                match (played, disabled) {
                    (Some(p), Some(d)) => PlayAction::Finish(play_outcome(p, d, r)),
                    _ => PlayAction::Finish(r),
                }
            },
        }
    }
}

/// The amplifier is switched on only right after the transfer has started
/// (so BCLK is already running).
pub proof fn lemma_amp_enabled_only_after_start(s: PlayState, e: PlayEvent)
    requires
        accepts(s, e),
        play_transition(s, e).1 is EnableAmp,
    ensures
        s.phase == PlayPhase::Starting,
        e matches PlayEvent::Started(Ok(())),
{
}

/// The transfer is stopped only after the amplifier has been switched off
/// (successfully or not) and has settled.
pub proof fn lemma_stop_only_after_amp_disabled(s: PlayState, e: PlayEvent)
    requires
        play_state_wf(s),
        accepts(s, e),
        play_transition(s, e).1 is StopTransfer,
    ensures
        s.phase == PlayPhase::CoolingDown,
        s.disabled is Some,
        e is Waited,
{
}

/// Once the amplifier is on, a failure ends playing and switches it off
/// before anything else; it does not stop the transfer directly.
pub proof fn lemma_failure_switches_amp_off(s: PlayState, err: Error, space: usize)
    requires
        s.phase == PlayPhase::Enabling || s.phase == PlayPhase::Streaming || s.phase
            == PlayPhase::Draining,
    ensures
        s.phase == PlayPhase::Enabling ==> play_transition(s, PlayEvent::AmpSwitched(Err(err)))
            == to_disabling(s, Err(err)),
        play_transition(s, PlayEvent::SamplesPushed { result: Err(err), space }) == to_disabling(
            s,
            Err(err),
        ),
        play_transition(s, PlayEvent::SilencePushed(Err(err))) == to_disabling(s, Err(err)),
{
}

/// A playback finishes with the first failure of playing, switching the
/// amplifier off and stopping the transfer; or, when the transfer never
/// started, with that failure and without touching the amplifier.
pub proof fn lemma_finish_outcome(s: PlayState, e: PlayEvent)
    requires
        play_state_wf(s),
        accepts(s, e),
        play_transition(s, e).1 is Finish,
    ensures
        s.phase == PlayPhase::Stopping ==> (e matches PlayEvent::Stopped(r) && play_transition(
            s,
            e,
        ).1 == PlayAction::Finish(combined_outcome(s.played->0, s.disabled->0, r))),
        s.phase == PlayPhase::Starting ==> (e matches PlayEvent::Started(Err(err))
            && play_transition(s, e).1 == PlayAction::Finish(Err(err))),
        s.phase == PlayPhase::Starting || s.phase == PlayPhase::Stopping,
{
}

} // verus!
