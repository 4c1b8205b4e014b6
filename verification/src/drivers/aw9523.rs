//! AW9523 I/O expander: speaker enable, touch and LCD reset lines.

use super::{last_write, Step};
use vstd::prelude::*;

verus! {

pub const ADDR_I2C: u8 = 0x58;

pub const REG_OUTPUT_P0: u8 = 0x02;

pub const REG_OUTPUT_P1: u8 = 0x03;

pub const REG_CONFIG_P0: u8 = 0x04;

pub const REG_CONFIG_P1: u8 = 0x05;

pub const REG_GCR: u8 = 0x11;

pub const REG_LEDMODE_P0: u8 = 0x12;

pub const REG_LEDMODE_P1: u8 = 0x13;

/// The bring-up sequence. Output levels are set first, so that the touch and
/// LCD reset lines (P1.0, P1.1) do not glitch low once they become outputs:
/// P0.0 and P0.2 (speaker enable) high, P1.0 and P1.1 high; then P0.3, P0.4,
/// P1.2 and P1.3 as inputs and the rest as outputs; port 0 push-pull; and every
/// pin in GPIO rather than LED mode.
pub open spec fn init_sequence() -> Seq<Step> {
    seq![
        Step::Write { reg: REG_OUTPUT_P0, val: 0b00000101 },
        Step::Write { reg: REG_OUTPUT_P1, val: 0b00000011 },
        Step::Write { reg: REG_CONFIG_P0, val: 0b00011000 },
        Step::Write { reg: REG_CONFIG_P1, val: 0b00001100 },
        Step::Write { reg: REG_GCR, val: 0b00010000 },
        Step::Write { reg: REG_LEDMODE_P0, val: 0xff },
        Step::Write { reg: REG_LEDMODE_P1, val: 0xff },
    ]
}

/// Resetting the LCD and touch controller: both reset lines low for 50 ms,
/// then high, then 200 ms for the controllers to come up.
pub open spec fn reset_lcd_sequence() -> Seq<Step> {
    seq![
        Step::Write { reg: REG_OUTPUT_P1, val: 0x00 },
        Step::DelayMs(50),
        Step::Write { reg: REG_OUTPUT_P1, val: 0x03 },
        Step::DelayMs(200),
    ]
}

/// The bring-up drives the touch and LCD reset lines (P1.0, P1.1) and the
/// speaker enable (P0.2) high before any pin becomes an output, so the reset
/// lines never glitch low; it then makes them outputs (config bit 0) while
/// P0.3, P0.4, P1.2 and P1.3 stay inputs, sets port 0 push-pull (GCR bit 4),
/// and leaves every pin in GPIO mode.
pub proof fn lemma_init_releases_resets_first()
    ensures
        init_sequence()[0] matches Step::Write { reg, val } && reg == REG_OUTPUT_P0 && (val / 4) % 2
            == 1,
        init_sequence()[1] matches Step::Write { reg, val } && reg == REG_OUTPUT_P1 && val % 4 == 3,
        forall|i: int|
            0 <= i < 2 ==> !(#[trigger] init_sequence()[i] matches Step::Write { reg, .. } && (reg
                == REG_CONFIG_P0 || reg == REG_CONFIG_P1)),
        last_write(init_sequence(), REG_CONFIG_P1) matches Some(v) && v % 4 == 0 && (v / 4) % 4 == 3,
        last_write(init_sequence(), REG_CONFIG_P0) matches Some(v) && (v / 4) % 2 == 0 && (v / 8) % 4
            == 3,
        last_write(init_sequence(), REG_GCR) matches Some(v) && (v / 16) % 2 == 1,
        last_write(init_sequence(), REG_LEDMODE_P0) == Some(0xffu8),
        last_write(init_sequence(), REG_LEDMODE_P1) == Some(0xffu8),
{
    reveal_with_fuel(last_write, 8);
    let s = init_sequence();
    assert(s.drop_last() =~= s.subrange(0, 6));
    assert(s.subrange(0, 6).drop_last() =~= s.subrange(0, 5));
    assert(s.subrange(0, 5).drop_last() =~= s.subrange(0, 4));
    assert(s.subrange(0, 4).drop_last() =~= s.subrange(0, 3));
    assert(s.subrange(0, 3).drop_last() =~= s.subrange(0, 2));
}

/// The LCD reset pulls both reset lines low, holds them, releases them, and
/// then waits for the controllers: the lines end high.
pub proof fn lemma_reset_lcd_pulses_low_then_high()
    ensures
        reset_lcd_sequence()[0] matches Step::Write { reg, val } && reg == REG_OUTPUT_P1 && val % 4
            == 0,
        reset_lcd_sequence()[1] matches Step::DelayMs(ms) && ms > 0,
        reset_lcd_sequence()[2] matches Step::Write { reg, val } && reg == REG_OUTPUT_P1 && val % 4
            == 3,
        reset_lcd_sequence()[3] matches Step::DelayMs(ms) && ms > 0,
        last_write(reset_lcd_sequence(), REG_OUTPUT_P1) matches Some(v) && v % 4 == 3,
{
    reveal_with_fuel(last_write, 3);
    let s = reset_lcd_sequence();
    assert(s.drop_last() =~= s.subrange(0, 3));
}

/// One register write to the expander.
pub fn write(reg: u8, val: u8) -> (step: Step)
    ensures
        step == (Step::Write { reg, val }),
{
    Step::Write { reg, val }
}

pub fn init() -> (steps: Vec<Step>)
    ensures
        steps@ == init_sequence(),
{
    let steps = vec![
        write(REG_OUTPUT_P0, 0b00000101),
        write(REG_OUTPUT_P1, 0b00000011),
        write(REG_CONFIG_P0, 0b00011000),
        write(REG_CONFIG_P1, 0b00001100),
        write(REG_GCR, 0b00010000),
        write(REG_LEDMODE_P0, 0xff),
        write(REG_LEDMODE_P1, 0xff),
    ];
    assert(steps@ =~= init_sequence());
    steps
}

pub fn reset_lcd() -> (steps: Vec<Step>)
    ensures
        steps@ == reset_lcd_sequence(),
{
    let steps = vec![
        write(REG_OUTPUT_P1, 0x00),
        Step::DelayMs(50),
        write(REG_OUTPUT_P1, 0x03),
        Step::DelayMs(200),
    ];
    assert(steps@ =~= reset_lcd_sequence());
    steps
}

/// The expander once it has been brought up.
pub struct Aw9523;

impl Aw9523 {
    /// The steps that bring the expander up; afterwards the expander is an `Aw9523`.
    pub fn init() -> (steps: Vec<Step>)
        ensures
            steps@ == init_sequence(),
    {
        init()
    }

    /// The steps that reset the LCD and the touch controller.
    pub fn lcd_reset(&self) -> (steps: Vec<Step>)
        ensures
            steps@ == reset_lcd_sequence(),
    {
        reset_lcd()
    }
}

} // verus!
