//! The focus-timer application state machine.
//!
//! The main loop polls the millisecond clock and the encoder counter once
//! per iteration and calls `step` with what it read; `step` applies the
//! button transition table, runs the one-time entry action when the state
//! changed, runs the state's own timed action, and reports what the
//! hardware around it must now do: bus operations for the display, the
//! backlight, the animation indicator, and the shared encoder counter.
use vstd::prelude::*;

use crate::custom_characters::HEART_FULL;
use crate::custom_characters::MAN_DANCING;
use crate::custom_characters::MAN_STANDING;
use crate::custom_characters::spec_custom_char_map;
use crate::encoder_interface::EncoderCount;
use crate::encoder_interface::get;
use crate::encoder_interface::reset;
use crate::lcd1602::BusOp;
use crate::lcd1602::DisplayObs;
use crate::lcd1602::LCD1602;
use crate::lcd1602::PackType;
use crate::lcd1602::clear_ops;
use crate::lcd1602::data_ops;
use crate::lcd1602::glyph_ops;
use crate::lcd1602::init_ops;
use crate::lcd1602::lcd_bytes;
use crate::lcd1602::send_ops;
use crate::lcd1602::spec_cursor_command;
use crate::lcd1602::spec_clear_display;
use crate::lcd1602::spec_set_cursor;
use crate::lcd1602::spec_write_byte;
use crate::lcd1602::spec_write_bytes;
use crate::text_format::format_right_aligned_3;
use crate::text_format::spec_right_aligned_3;

verus! {

/// The four operating states.
#[derive(Clone, Copy, Debug, PartialEq, Eq, Structural)]
pub enum TimeSaverState {
    /// The greeting screen shown at power-on.
    Splash,
    /// Choosing the number of minutes with the encoder.
    Setting,
    /// Counting the chosen minutes down.
    Count,
    /// The countdown is over; the backlight blinks.
    Alarm,
}

/// The minute count a fresh `Setting` state starts from.
pub const DEFAULT_MINUTES_TO_GO: u32 = 20;

/// What one loop iteration asks of the hardware around the machine,
/// besides replaying the display operations.
pub struct StepEffects {
    /// Switch the display backlight on (leaving the alarm).
    pub backlight_on: bool,
    /// Toggle the display backlight (the alarm blink).
    pub backlight_toggle: bool,
    /// The new level for the animation indicator, when it toggled.
    pub animation_led: Option<bool>,
}

/// The machine's observable state: the operating state, the bookkeeping
/// around it, and the display model.
pub struct MachineObs {
    /// The operating state.
    pub state: TimeSaverState,
    /// The state whose entry action ran last; a difference from `state`
    /// means the entry action is still owed.
    pub previous_state: TimeSaverState,
    /// Minutes left, or being chosen.
    pub minutes_to_go: u32,
    /// True while the animation shows the standing figure.
    pub standing_figure: bool,
    /// The display model.
    pub display: DisplayObs,
}

/// What one spec-level step yields: the machine, the shared encoder value
/// as the step leaves it, the hardware effects, and the emitted display
/// operations.
pub struct SpecStepResult {
    pub machine: MachineObs,
    pub encoder_value: i32,
    pub backlight_on: bool,
    pub backlight_toggle: bool,
    pub animation_led: Option<bool>,
    pub ops: Seq<BusOp>,
}

/// The greeting line.
pub open spec fn splash_text() -> Seq<char> {
    "Save your time "@
}

/// The title of the setting screen.
pub open spec fn setting_title() -> Seq<char> {
    "Set time:"@
}

/// The unit label of the setting screen.
pub open spec fn setting_unit() -> Seq<char> {
    "min"@
}

/// The title of the countdown screen.
pub open spec fn count_title() -> Seq<char> {
    "Try to focus..."@
}

/// The label behind the minute count on entering the countdown.
pub open spec fn count_entry_suffix() -> Seq<char> {
    " min left"@
}

/// The label behind the minute count on each whole minute.
pub open spec fn count_tick_suffix() -> Seq<char> {
    " min"@
}

/// The alarm screen text.
pub open spec fn alarm_text() -> Seq<char> {
    "TIME IS UP!!"@
}

/// The button is sampled only on the 200 ms grid, as a coarse debounce.
pub open spec fn spec_button_sampled(now_ms: u32, button_is_low: bool) -> bool {
    now_ms % 200 == 0 && button_is_low
}

/// The button transition table: a sampled press advances
/// `Splash -> Setting -> Count`, leaves `Count` alone, and takes `Alarm`
/// back to `Splash`.
pub open spec fn spec_next_on_button(s: TimeSaverState) -> TimeSaverState {
    match s {
        TimeSaverState::Splash => TimeSaverState::Setting,
        TimeSaverState::Setting => TimeSaverState::Count,
        TimeSaverState::Count => TimeSaverState::Count,
        TimeSaverState::Alarm => TimeSaverState::Splash,
    }
}

/// The one-time entry action of the state the machine just switched to:
/// what it does to the machine, to the shared encoder value, and which
/// display operations it emits.
pub open spec fn spec_entry_action(m: MachineObs, enc: i32) -> (MachineObs, i32, Seq<BusOp>) {
    match m.state {
        TimeSaverState::Splash => (
            MachineObs {
                previous_state: m.state,
                display: spec_write_byte(
                    spec_write_bytes(spec_clear_display(m.display), lcd_bytes(splash_text())),
                    HEART_FULL,
                ),
                ..m
            },
            enc,
            clear_ops() + data_ops(lcd_bytes(splash_text())) + send_ops(PackType::Data, HEART_FULL),
        ),
        TimeSaverState::Setting => (
            MachineObs {
                previous_state: m.state,
                minutes_to_go: DEFAULT_MINUTES_TO_GO,
                display: spec_write_bytes(
                    spec_set_cursor(
                        spec_write_bytes(spec_clear_display(m.display), lcd_bytes(setting_title())),
                        1,
                        9,
                    ),
                    lcd_bytes(setting_unit()),
                ),
                ..m
            },
            (DEFAULT_MINUTES_TO_GO - 1) as i32,
            clear_ops() + data_ops(lcd_bytes(setting_title())) + send_ops(
                PackType::Command,
                spec_cursor_command(1, 9),
            ) + data_ops(lcd_bytes(setting_unit())),
        ),
        TimeSaverState::Count => (
            MachineObs {
                previous_state: m.state,
                display: spec_write_bytes(
                    spec_write_bytes(
                        spec_set_cursor(
                            spec_write_bytes(
                                spec_clear_display(m.display),
                                lcd_bytes(count_title()),
                            ),
                            1,
                            0,
                        ),
                        spec_right_aligned_3((m.minutes_to_go - 1) as nat),
                    ),
                    lcd_bytes(count_entry_suffix()),
                ),
                ..m
            },
            enc,
            clear_ops() + data_ops(lcd_bytes(count_title())) + send_ops(
                PackType::Command,
                spec_cursor_command(1, 0),
            ) + data_ops(spec_right_aligned_3((m.minutes_to_go - 1) as nat)) + data_ops(
                lcd_bytes(count_entry_suffix()),
            ),
        ),
        TimeSaverState::Alarm => (
            MachineObs {
                previous_state: m.state,
                display: spec_write_bytes(
                    spec_set_cursor(spec_clear_display(m.display), 0, 2),
                    lcd_bytes(alarm_text()),
                ),
                ..m
            },
            enc,
            clear_ops() + send_ops(PackType::Command, spec_cursor_command(0, 2)) + data_ops(
                lcd_bytes(alarm_text()),
            ),
        ),
    }
}

/// The timed action of the current state, gated by that state's own
/// cadence on the clock value.
pub open spec fn spec_timed_action(m: MachineObs, now_ms: u32, enc: i32) -> SpecStepResult {
    if m.state is Setting && now_ms % 50 == 0 {
        // Read the chosen minutes from the encoder; a negative count is
        // reset and read as zero, and 1 is added so the timer can never
        // be set to zero minutes.
        let minutes = if enc >= 0 {
            (enc + 1) as u32
        } else {
            1u32
        };
        let enc2 = if enc >= 0 {
            enc
        } else {
            0i32
        };
        SpecStepResult {
            machine: MachineObs {
                minutes_to_go: minutes,
                display: spec_write_bytes(
                    spec_set_cursor(m.display, 1, 5),
                    spec_right_aligned_3(minutes as nat),
                ),
                ..m
            },
            encoder_value: enc2,
            backlight_on: false,
            backlight_toggle: false,
            animation_led: None,
            ops: send_ops(PackType::Command, spec_cursor_command(1, 5)) + data_ops(
                spec_right_aligned_3(minutes as nat),
            ),
        }
    } else if m.state is Count {
        if now_ms % 60000 == 0 && m.minutes_to_go == 0 {
            // The countdown would go below zero: become the alarm right
            // now and skip the rest of this iteration.
            SpecStepResult {
                machine: MachineObs { state: TimeSaverState::Alarm, ..m },
                encoder_value: enc,
                backlight_on: false,
                backlight_toggle: false,
                animation_led: None,
                ops: Seq::empty(),
            }
        } else {
            let (m1, ops1): (MachineObs, Seq<BusOp>) = if now_ms % 60000 == 0 {
                let minutes = (m.minutes_to_go - 1) as u32;
                (
                    MachineObs {
                        minutes_to_go: minutes,
                        display: spec_write_bytes(
                            spec_write_bytes(
                                spec_set_cursor(m.display, 1, 0),
                                spec_right_aligned_3(minutes as nat),
                            ),
                            lcd_bytes(count_tick_suffix()),
                        ),
                        ..m
                    },
                    send_ops(PackType::Command, spec_cursor_command(1, 0)) + data_ops(
                        spec_right_aligned_3(minutes as nat),
                    ) + data_ops(lcd_bytes(count_tick_suffix())),
                )
            } else {
                (m, Seq::empty())
            };
            if now_ms % 500 == 0 {
                let standing = !m1.standing_figure;
                let glyph = if standing {
                    MAN_STANDING
                } else {
                    MAN_DANCING
                };
                SpecStepResult {
                    machine: MachineObs {
                        standing_figure: standing,
                        display: spec_write_byte(spec_set_cursor(m1.display, 1, 15), glyph),
                        ..m1
                    },
                    encoder_value: enc,
                    backlight_on: false,
                    backlight_toggle: false,
                    animation_led: Some(standing),
                    ops: ops1 + send_ops(PackType::Command, spec_cursor_command(1, 15)) + send_ops(
                        PackType::Data,
                        glyph,
                    ),
                }
            } else {
                SpecStepResult {
                    machine: m1,
                    encoder_value: enc,
                    backlight_on: false,
                    backlight_toggle: false,
                    animation_led: None,
                    ops: ops1,
                }
            }
        }
    } else if m.state is Alarm && now_ms % 500 == 0 {
        SpecStepResult {
            machine: m,
            encoder_value: enc,
            backlight_on: false,
            backlight_toggle: true,
            animation_led: None,
            ops: Seq::empty(),
        }
    } else {
        SpecStepResult {
            machine: m,
            encoder_value: enc,
            backlight_on: false,
            backlight_toggle: false,
            animation_led: None,
            ops: Seq::empty(),
        }
    }
}

/// One whole loop iteration: sample the button, apply the transition
/// table, run the owed entry action, then the state's timed action.
pub open spec fn spec_step(m: MachineObs, now_ms: u32, button_is_low: bool, enc: i32) -> SpecStepResult {
    let pressed = spec_button_sampled(now_ms, button_is_low);
    let backlight_on = pressed && m.state is Alarm;
    let s1 = if pressed {
        spec_next_on_button(m.state)
    } else {
        m.state
    };
    let m_mid = MachineObs { state: s1, ..m };
    let (m1, enc1, entry_ops): (MachineObs, i32, Seq<BusOp>) = if s1 != m.previous_state {
        spec_entry_action(m_mid, enc)
    } else {
        (m_mid, enc, Seq::empty())
    };
    let t = spec_timed_action(m1, now_ms, enc1);
    SpecStepResult { backlight_on, ops: entry_ops + t.ops, ..t }
}

/// The machine's well-formedness: the display model is well-formed and in
/// left-to-right entry mode, and the minute count is at least 1 wherever
/// the countdown screen may still print `minutes_to_go - 1`.
pub open spec fn spec_wf(m: MachineObs) -> bool {
    &&& m.display.screen.len() == 32
    &&& m.display.glyphs.len() == 8
    &&& m.display.cursor_row < 2
    &&& m.display.left_to_right
    &&& (m.state is Setting ==> m.minutes_to_go >= 1)
    &&& (m.state is Count && !(m.previous_state is Count) ==> m.minutes_to_go >= 1)
    &&& (m.previous_state is Setting ==> m.state is Setting)
}

/// The machine itself: the observable state plus the display driver that
/// holds the not-yet-replayed bus operations.
pub struct TimeSaver {
    current_state: TimeSaverState,
    previous_state: TimeSaverState,
    minutes_to_go: u32,
    standing_figure: bool,
    lcd: LCD1602,
}

impl TimeSaver {
    /// The observable state.
    pub closed spec fn obs(self) -> MachineObs {
        MachineObs {
            state: self.current_state,
            previous_state: self.previous_state,
            minutes_to_go: self.minutes_to_go,
            standing_figure: self.standing_figure,
            display: self.lcd.obs(),
        }
    }

    /// The display operations emitted and not yet taken by the harness.
    pub closed spec fn lcd_queue(self) -> Seq<BusOp> {
        self.lcd.queue()
    }

    /// Well-formedness of the observable state.
    pub open spec fn wf(self) -> bool {
        spec_wf(self.obs())
    }

    /// A fresh machine: display initialised and loaded with the four
    /// application glyphs, state `Splash`, with the entry action still
    /// owed so the first iteration draws the greeting.
    pub fn new() -> (machine: TimeSaver)
        ensures
            machine.wf(),
            machine.obs().state is Splash,
            !(machine.obs().previous_state is Splash),
            machine.obs().minutes_to_go == 0,
            !machine.obs().standing_figure,
            machine.lcd_queue() == init_ops() + glyph_ops(
                MAN_STANDING,
                spec_custom_char_map(MAN_STANDING),
            ) + glyph_ops(MAN_DANCING, spec_custom_char_map(MAN_DANCING)) + glyph_ops(
                HEART_FULL,
                spec_custom_char_map(HEART_FULL),
            ) + glyph_ops(
                crate::custom_characters::HEART_BORDER,
                spec_custom_char_map(crate::custom_characters::HEART_BORDER),
            ),
    {
        let mut lcd = LCD1602::new();
        lcd.init_custom_chars();
        TimeSaver {
            current_state: TimeSaverState::Splash,
            previous_state: TimeSaverState::Alarm,
            minutes_to_go: 0,
            standing_figure: false,
            lcd,
        }
    }

    /// One loop iteration, exactly as `spec_step` lays it out, on the
    /// clock value, the raw button level and the shared encoder counter
    /// that the harness read for this iteration.
    pub fn step(&mut self, now_ms: u32, button_is_low: bool, encoder: &mut EncoderCount) -> (fx:
        StepEffects)
        requires
            old(self).wf(),
        ensures
            final(self).wf(),
            ({
                let r = spec_step(old(self).obs(), now_ms, button_is_low, old(encoder).value());
                &&& final(self).obs() == r.machine
                &&& final(encoder).value() == r.encoder_value
                &&& fx.backlight_on == r.backlight_on
                &&& fx.backlight_toggle == r.backlight_toggle
                &&& fx.animation_led == r.animation_led
                &&& final(self).lcd_queue() == old(self).lcd_queue() + r.ops
            }),
    {
        let mut backlight_on = false;

        // Sample the button only on the 200 ms grid (coarse debounce).
        let pressed = now_ms % 200 == 0 && button_is_low;
        if pressed {
            // The backlight comes back on when a press leaves the alarm.
            if self.current_state == TimeSaverState::Alarm {
                backlight_on = true;
            }
            self.current_state = match self.current_state {
                TimeSaverState::Splash => TimeSaverState::Setting,
                TimeSaverState::Setting => TimeSaverState::Count,
                TimeSaverState::Count => TimeSaverState::Count,
                TimeSaverState::Alarm => TimeSaverState::Splash,
            };
        }

        // Run the one-time entry action if the state just changed.
        if self.current_state != self.previous_state {
            self.run_entry_action(encoder);
        }

        // The state's own timed action.
        let fx_timed = self.run_timed_action(now_ms, encoder);
        let fx = StepEffects { backlight_on, ..fx_timed };
        proof {
            let r = spec_step(old(self).obs(), now_ms, button_is_low, old(encoder).value());
            assert(self.lcd.queue() =~= old(self).lcd_queue() + r.ops);
        }
        fx
    }

    /// The one-time entry action of the state the machine just switched
    /// to, exactly as `spec_entry_action` lays it out.
    fn run_entry_action(&mut self, encoder: &mut EncoderCount)
        requires
            old(self).obs().display.screen.len() == 32,
            old(self).obs().display.glyphs.len() == 8,
            old(self).obs().display.cursor_row < 2,
            old(self).obs().display.left_to_right,
            old(self).obs().state is Count ==> old(self).obs().minutes_to_go >= 1,
        ensures
            spec_wf(final(self).obs()),
            ({
                let (m1, enc1, ops) = spec_entry_action(old(self).obs(), old(encoder).value());
                &&& final(self).obs() == m1
                &&& final(encoder).value() == enc1
                &&& final(self).lcd_queue() == old(self).lcd_queue() + ops
            }),
    {
        match self.current_state {
            TimeSaverState::Splash => {
                self.lcd.clear();
                self.lcd.print("Save your time ");
                let _ = self.lcd.write_custom_char(HEART_FULL);
            },
            TimeSaverState::Setting => {
                crate::encoder_interface::set(encoder, (DEFAULT_MINUTES_TO_GO - 1) as i32);
                self.minutes_to_go = DEFAULT_MINUTES_TO_GO;
                self.lcd.clear();
                self.lcd.print("Set time:");
                let _ = self.lcd.set_cursor(1, 9);
                self.lcd.print("min");
            },
            TimeSaverState::Count => {
                self.lcd.clear();
                self.lcd.print("Try to focus...");
                let _ = self.lcd.set_cursor(1, 0);
                let digits = format_right_aligned_3(self.minutes_to_go - 1);
                self.lcd.print_bytes(&digits);
                self.lcd.print(" min left");
            },
            TimeSaverState::Alarm => {
                self.lcd.clear();
                let _ = self.lcd.set_cursor(0, 2);
                self.lcd.print("TIME IS UP!!");
            },
        }
        self.previous_state = self.current_state;
        proof {
            let (m1, enc1, ops) = spec_entry_action(old(self).obs(), old(encoder).value());
            assert(self.lcd.queue() =~= old(self).lcd_queue() + ops);
        }
    }

    /// The timed action of the current state, exactly as
    /// `spec_timed_action` lays it out.
    fn run_timed_action(&mut self, now_ms: u32, encoder: &mut EncoderCount) -> (fx: StepEffects)
        requires
            old(self).wf(),
            old(self).obs().state == old(self).obs().previous_state,
        ensures
            final(self).wf(),
            ({
                let t = spec_timed_action(old(self).obs(), now_ms, old(encoder).value());
                &&& final(self).obs() == t.machine
                &&& final(encoder).value() == t.encoder_value
                &&& !fx.backlight_on
                &&& fx.backlight_toggle == t.backlight_toggle
                &&& fx.animation_led == t.animation_led
                &&& final(self).lcd_queue() == old(self).lcd_queue() + t.ops
            }),
    {
        let mut fx = StepEffects {
            backlight_on: false,
            backlight_toggle: false,
            animation_led: None,
        };
        match self.current_state {
            TimeSaverState::Setting => {
                // Update the chosen minutes from the encoder at 20 Hz.
                if now_ms % 50 == 0 {
                    let e = get(encoder);
                    if e >= 0 {
                        self.minutes_to_go = e as u32 + 1;
                    } else {
                        reset(encoder);
                        self.minutes_to_go = 1;
                    }
                    let _ = self.lcd.set_cursor(1, 5);
                    let digits = format_right_aligned_3(self.minutes_to_go);
                    self.lcd.print_bytes(&digits);
                }
            },
            TimeSaverState::Count => {
                // Count one minute down on each whole minute of the clock.
                if now_ms % 60000 == 0 {
                    if self.minutes_to_go >= 1 {
                        self.minutes_to_go = self.minutes_to_go - 1;
                        let _ = self.lcd.set_cursor(1, 0);
                        let digits = format_right_aligned_3(self.minutes_to_go);
                        self.lcd.print_bytes(&digits);
                        self.lcd.print(" min");
                    } else {
                        // The countdown would go below zero: alarm now,
                        // skipping the animation of this iteration.
                        self.current_state = TimeSaverState::Alarm;
                        return fx;
                    }
                }
                // Toggle the walking figure at 2 Hz.
                if now_ms % 500 == 0 {
                    self.standing_figure = !self.standing_figure;
                    fx.animation_led = Some(self.standing_figure);
                    let _ = self.lcd.set_cursor(1, 15);
                    let glyph = if self.standing_figure {
                        MAN_STANDING
                    } else {
                        MAN_DANCING
                    };
                    let _ = self.lcd.write_custom_char(glyph);
                }
                proof {
                    let t = spec_timed_action(old(self).obs(), now_ms, old(encoder).value());
                    assert(self.lcd.queue() =~= old(self).lcd_queue() + t.ops);
                }
            },
            TimeSaverState::Alarm => {
                // Blink the backlight at 2 Hz.
                if now_ms % 500 == 0 {
                    fx.backlight_toggle = true;
                }
            },
            TimeSaverState::Splash => {},
        }
        fx
    }

    /// Hand the emitted display operations to the harness for replay.
    pub fn take_display_ops(&mut self) -> (ops: Vec<BusOp>)
        ensures
            ops@ == old(self).lcd_queue(),
            final(self).lcd_queue() == Seq::<BusOp>::empty(),
            final(self).obs() == old(self).obs(),
    {
        self.lcd.take_ops()
    }

    /// The current operating state.
    pub fn state(&self) -> (s: TimeSaverState)
        ensures
            s == self.obs().state,
    {
        self.current_state
    }

    /// The minutes left, or being chosen.
    pub fn minutes_remaining(&self) -> (m: u32)
        ensures
            m == self.obs().minutes_to_go,
    {
        self.minutes_to_go
    }

    /// The cursor position of the display model, row then column.
    pub fn display_cursor(&self) -> (rc: (u8, u8))
        ensures
            rc.0 == self.obs().display.cursor_row,
            rc.1 == self.obs().display.cursor_col,
    {
        self.lcd.cursor()
    }

    /// A copy of the display model's 32 visible cells, row-major.
    pub fn display_screen(&self) -> (v: Vec<u8>)
        requires
            self.wf(),
        ensures
            v@ == self.obs().display.screen,
    {
        self.lcd.screen_contents()
    }
}

/// A clock value on a coarse grid is also on every grid that divides it:
/// if `x % (k * d) == 0` then `x % d == 0`.
proof fn lemma_mod_divisor_factor(x: int, d: int, k: int)
    requires
        x >= 0,
        d > 0,
        k > 0,
        x % (k * d) == 0,
    ensures
        x % d == 0,
{
    assert(k * d > 0) by (nonlinear_arith)
        requires
            k > 0,
            d > 0,
    ;
    vstd::arithmetic::div_mod::lemma_fundamental_div_mod(x, k * d);
    let q = x / (k * d);
    assert(x == (k * q) * d) by (nonlinear_arith)
        requires
            x == k * d * q + x % (k * d),
            x % (k * d) == 0,
    ;
    vstd::arithmetic::div_mod::lemma_mod_multiples_basic(k * q, d);
}

/// From `Splash`, one sampled button press moves the machine to `Setting`,
/// arms the default minute count and resets the shared encoder to one less
/// (the setting screen immediately reads it back and adds the 1).
pub proof fn lemma_press_in_splash(m: MachineObs, now_ms: u32, enc: i32)
    requires
        spec_wf(m),
        m.state is Splash,
        now_ms % 200 == 0,
    ensures
        ({
            let r = spec_step(m, now_ms, true, enc);
            &&& r.machine.state is Setting
            &&& r.machine.previous_state is Setting
            &&& r.machine.minutes_to_go == DEFAULT_MINUTES_TO_GO
            &&& r.encoder_value == DEFAULT_MINUTES_TO_GO - 1
        }),
{
    lemma_mod_divisor_factor(now_ms as int, 50, 4);
}

/// From `Setting` with the encoder untouched, one more sampled press moves
/// the machine to `Count` with `minutes_to_go` still the default and the
/// encoder still one less. It holds away from the whole-minute instants of
/// the clock, where the countdown fires in the same iteration.
pub proof fn lemma_press_in_setting(m: MachineObs, now_ms: u32, enc: i32)
    requires
        spec_wf(m),
        m.state is Setting,
        m.previous_state is Setting,
        m.minutes_to_go == DEFAULT_MINUTES_TO_GO,
        enc == DEFAULT_MINUTES_TO_GO - 1,
        now_ms % 200 == 0,
        now_ms % 60000 != 0,
    ensures
        ({
            let r = spec_step(m, now_ms, true, enc);
            &&& r.machine.state is Count
            &&& r.machine.previous_state is Count
            &&& r.machine.minutes_to_go == DEFAULT_MINUTES_TO_GO
            &&& r.encoder_value == DEFAULT_MINUTES_TO_GO - 1
        }),
{
}

/// From `Alarm`, one sampled press returns the machine to `Splash` and
/// switches the backlight back on.
pub proof fn lemma_press_in_alarm(m: MachineObs, now_ms: u32, enc: i32)
    requires
        spec_wf(m),
        m.state is Alarm,
        m.previous_state is Alarm,
        now_ms % 200 == 0,
    ensures
        ({
            let r = spec_step(m, now_ms, true, enc);
            &&& r.machine.state is Splash
            &&& r.machine.previous_state is Splash
            &&& r.backlight_on
        }),
{
}

/// In `Count`, at each whole minute of clock time with no sampled press,
/// the minute count goes down by exactly 1 — and the instant it would go
/// below zero the machine becomes `Alarm` in that same iteration.
pub proof fn lemma_count_whole_minute(m: MachineObs, now_ms: u32, enc: i32)
    requires
        spec_wf(m),
        m.state is Count,
        m.previous_state is Count,
        now_ms % 60000 == 0,
    ensures
        ({
            let r = spec_step(m, now_ms, false, enc);
            &&& m.minutes_to_go >= 1 ==> r.machine.state is Count && r.machine.minutes_to_go
                == m.minutes_to_go - 1
            &&& m.minutes_to_go == 0 ==> r.machine.state is Alarm && r.machine.minutes_to_go
                == m.minutes_to_go
        }),
{
}

} // verus!
