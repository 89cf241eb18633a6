//! Wall clock and display-mode state machine, advanced once per timer tick.
//!
//! A display cycle lasts four seconds, split into quarters of
//! `ticks_per_second` ticks: hours, minutes, battery gauge, then dark.
use vstd::prelude::*;
use crate::display::{DotStatus, MAX_DIGIT_CODE, NixieDisplay, PinLevels};

verus! {

/// What the display shows, or is asked to show next.
#[derive(PartialEq, Eq, Structural, Clone, Copy, Debug)]
pub enum DisplayMode {
    Idle,
    Time,
    Charge,
    Both,
    EmptyBattery,
}

/// The quarter of the display cycle that a counter value falls in.
#[derive(PartialEq, Eq, Structural, Clone, Copy, Debug)]
pub enum Quarter {
    Hours,
    Minutes,
    Gauge,
    Dark,
}

/// Largest tick rate for which a full four-second cycle fits in a `u32`.
pub const MAX_TICKS_PER_SECOND: u32 = 0x3FFF_FFFF;

/// Time one second later, rolling seconds into minutes, minutes into hours,
/// and hours over at 24.
pub open spec fn advance_second(h: u8, m: u8, s: u8) -> (u8, u8, u8) {
    if s + 1 < 60 {
        (h, m, (s + 1) as u8)
    } else if m + 1 < 60 {
        (h, (m + 1) as u8, 0)
    } else if h + 1 < 24 {
        ((h + 1) as u8, 0, 0)
    } else {
        (0, 0, 0)
    }
}

/// Gauge code for a charge level: `min(16, 10 + level / 16)`.
pub open spec fn charge_value(level: u8) -> u8 {
    if 10 + level / 16 >= 16 {
        16
    } else {
        (10 + level / 16) as u8
    }
}

/// Quarter of the cycle for a display counter: `(0, tps]` hours,
/// `(tps, 2 tps]` minutes, `(2 tps, 3 tps]` gauge, beyond that dark.
pub open spec fn quarter_of(counter: u32, tps: u32) -> Quarter {
    if counter <= tps {
        Quarter::Hours
    } else if counter <= 2 * tps {
        Quarter::Minutes
    } else if counter <= 3 * tps {
        Quarter::Gauge
    } else {
        Quarter::Dark
    }
}

/// `d` with both pending codes and the dot slot replaced.
pub open spec fn with_digits(d: NixieDisplay, first: u8, second: u8, dot: DotStatus) -> NixieDisplay {
    NixieDisplay { nixie1_value: first, nixie2_value: second, dot_status: dot, ..d }
}

/// `d` with the bus enable line high.
pub open spec fn enabled(d: NixieDisplay) -> NixieDisplay {
    NixieDisplay { pins: PinLevels { enable: true, ..d.pins }, ..d }
}

/// The display after painting quarter `q` in mode `mode`, for the time
/// `h:m` and gauge code `gauge`.
pub open spec fn painted(d: NixieDisplay, q: Quarter, mode: DisplayMode, h: u8, m: u8, gauge: u8) -> NixieDisplay {
    match q {
        Quarter::Hours => {
            let e = enabled(d);
            if mode == DisplayMode::Time || mode == DisplayMode::Both {
                with_digits(e, h / 10, h % 10, DotStatus::Digit1).updated()
            } else if mode == DisplayMode::EmptyBattery {
                with_digits(e, 10, 10, DotStatus::Digit1).updated()
            } else {
                e.updated()
            }
        },
        Quarter::Minutes => {
            let e = enabled(d);
            if mode == DisplayMode::Time || mode == DisplayMode::Both {
                with_digits(e, m / 10, m % 10, DotStatus::Digit2).updated()
            } else if mode == DisplayMode::EmptyBattery {
                with_digits(e, 10, 10, DotStatus::Digit2).updated()
            } else {
                e.updated()
            }
        },
        Quarter::Gauge => {
            if mode == DisplayMode::Both {
                with_digits(enabled(d), gauge, gauge, DotStatus::Off).updated()
            } else {
                d
            }
        },
        Quarter::Dark => NixieDisplay { pins: PinLevels::all_low(), ..d },
    }
}

/// A clock that owns the display and paints it tick by tick.
pub struct NixieClock {
    pub nixie_display: NixieDisplay,
    pub ticks_per_second: u32,
    pub current_tick: u32,
    pub hours: u8,
    pub minutes: u8,
    pub seconds: u8,
    pub display_counter: u32,
    pub display_status: DisplayMode,
    pub display_new_status: DisplayMode,
    pub charge_level: u8,
    pub displaying: bool,
}

impl NixieClock {
    /// The time is in range, the tick and display counters are within their
    /// cycles, and a full cycle fits in a `u32`.
    pub open spec fn wf(&self) -> bool {
        &&& self.nixie_display.wf()
        &&& 1 <= self.ticks_per_second <= MAX_TICKS_PER_SECOND
        &&& self.current_tick < self.ticks_per_second
        &&& self.hours < 24
        &&& self.minutes < 60
        &&& self.seconds < 60
        &&& self.display_counter <= 4 * self.ticks_per_second
    }

    /// The clock with `mode` requested for the next tick.
    pub open spec fn requested(self, mode: DisplayMode) -> NixieClock {
        NixieClock { display_new_status: mode, ..self }
    }

    /// The clock after one tick.
    ///
    /// The tick counter advances, and on the last tick of a second the time
    /// moves one second on. A pending request replaces the mode and restarts
    /// the display cycle. The display counter then advances unless the cycle
    /// is over, and the quarter it falls in is painted; in the dark quarter
    /// the mode falls back to idle.
    pub open spec fn ticked(self) -> NixieClock {
        let tps = self.ticks_per_second;
        let wrap = self.current_tick >= tps - 1;
        let t = if wrap {
            advance_second(self.hours, self.minutes, self.seconds)
        } else {
            (self.hours, self.minutes, self.seconds)
        };
        let latch = self.display_new_status != DisplayMode::Idle;
        let mode = if latch { self.display_new_status } else { self.display_status };
        let start: u32 = if latch { 0 } else { self.display_counter };
        let on = start < 4 * tps;
        let counter: u32 = if on { (start + 1) as u32 } else { start };
        let q = quarter_of(counter, tps);
        NixieClock {
            nixie_display: painted(self.nixie_display, q, mode, t.0, t.1, charge_value(self.charge_level)),
            current_tick: if wrap { 0 } else { (self.current_tick + 1) as u32 },
            hours: t.0,
            minutes: t.1,
            seconds: t.2,
            display_counter: counter,
            display_status: if q == Quarter::Dark { DisplayMode::Idle } else { mode },
            display_new_status: DisplayMode::Idle,
            displaying: on,
            ..self
        }
    }

    /// A clock at 13:37:00 with the display idle and its cycle over, ticking
    /// `ticks_per_second` times a second.
    pub fn new(nixie_display: NixieDisplay, ticks_per_second: u32) -> (r: NixieClock)
        requires
            nixie_display.wf(),
            1 <= ticks_per_second <= MAX_TICKS_PER_SECOND,
        ensures
            r.wf(),
            r.nixie_display == nixie_display,
            r.ticks_per_second == ticks_per_second,
            r.current_tick == 0,
            r.hours == 13,
            r.minutes == 37,
            r.seconds == 0,
            r.display_counter == 4 * ticks_per_second,
            r.display_status == DisplayMode::Idle,
            r.display_new_status == DisplayMode::Idle,
            r.charge_level == 50,
            !r.displaying,
    {
        NixieClock {
            nixie_display,
            ticks_per_second,
            current_tick: 0,
            hours: 13,
            minutes: 37,
            seconds: 0,
            display_counter: ticks_per_second * 4,
            display_status: DisplayMode::Idle,
            display_new_status: DisplayMode::Idle,
            charge_level: 50,
            displaying: false,
        }
    }

    /// Sets hours and minutes; seconds and everything else are kept.
    pub fn set_time(&mut self, hours: u8, minutes: u8)
        requires
            old(self).wf(),
            hours < 24,
            minutes < 60,
        ensures
            *final(self) == (NixieClock { hours, minutes, ..*old(self) }),
            final(self).wf(),
    {
        self.hours = hours;
        self.minutes = minutes;
    }

    /// Hours and minutes.
    pub fn get_time(&self) -> (r: (u8, u8))
        ensures
            r == (self.hours, self.minutes),
    {
        (self.hours, self.minutes)
    }

    /// Asks for the time on the next tick.
    pub fn show_time(&mut self)
        ensures
            *final(self) == old(self).requested(DisplayMode::Time),
    {
        self.display_new_status = DisplayMode::Time;
    }

    /// Asks for the charge display on the next tick.
    pub fn show_charge(&mut self)
        ensures
            *final(self) == old(self).requested(DisplayMode::Charge),
    {
        self.display_new_status = DisplayMode::Charge;
    }

    /// Asks for the empty-battery flasher on the next tick.
    pub fn show_empty(&mut self)
        ensures
            *final(self) == old(self).requested(DisplayMode::EmptyBattery),
    {
        self.display_new_status = DisplayMode::EmptyBattery;
    }

    /// Asks for the time followed by the battery gauge on the next tick.
    pub fn show_time_and_charge(&mut self)
        ensures
            *final(self) == old(self).requested(DisplayMode::Both),
    {
        self.display_new_status = DisplayMode::Both;
    }

    /// Sets the charge level that the gauge shows.
    pub fn set_charge_level(&mut self, charge_level: u8)
        ensures
            *final(self) == (NixieClock { charge_level, ..*old(self) }),
    {
        self.charge_level = charge_level;
    }

    /// Whether the last tick fell inside a display cycle.
    pub fn is_display_on(&self) -> (r: bool)
        ensures
            r == self.displaying,
    {
        self.displaying
    }

    fn second_passed(&mut self)
        requires
            old(self).wf(),
        ensures
            (final(self).hours, final(self).minutes, final(self).seconds)
                == advance_second(old(self).hours, old(self).minutes, old(self).seconds),
            *final(self) == (NixieClock {
                hours: final(self).hours,
                minutes: final(self).minutes,
                seconds: final(self).seconds,
                ..*old(self)
            }),
    {
        self.seconds += 1;
        if self.seconds >= 60 {
            self.minutes += 1;
            self.seconds = 0;
            if self.minutes >= 60 {
                self.minutes = 0;
                self.hours += 1;
                if self.hours >= 24 {
                    self.hours = 0;
                }
            }
        }
    }

    /// One timer tick: advances the time, takes up a pending request, and
    /// paints the current quarter of the display cycle.
    pub fn tick(&mut self)
        requires
            old(self).wf(),
        ensures
            *final(self) == old(self).ticked(),
            final(self).wf(),
    {
        self.current_tick = if self.current_tick >= self.ticks_per_second - 1 {
            self.second_passed();
            0
        } else {
            self.current_tick + 1
        };

        if self.display_new_status != DisplayMode::Idle {
            self.display_counter = 0;
            self.display_status = self.display_new_status;
            self.display_new_status = DisplayMode::Idle;
        }

        if self.display_counter < self.ticks_per_second * 4 {
            self.display_counter += 1;
            self.displaying = true;
        } else {
            self.displaying = false;
        }

        let charge_value = charge_code(self.charge_level);

        if self.display_counter <= self.ticks_per_second {
            self.nixie_display.enable();
            if self.display_status == DisplayMode::Time || self.display_status == DisplayMode::Both {
                self.nixie_display.set_digit(0, self.hours / 10, DotStatus::Digit1);
                self.nixie_display.set_digit(1, self.hours % 10, DotStatus::Digit1);
            } else if self.display_status == DisplayMode::EmptyBattery {
                self.nixie_display.set_digit(0, 10, DotStatus::Digit1);
                self.nixie_display.set_digit(1, 10, DotStatus::Digit1);
            }
            self.nixie_display.update();
        } else if self.display_counter <= self.ticks_per_second * 2 {
            self.nixie_display.enable();
            if self.display_status == DisplayMode::Time || self.display_status == DisplayMode::Both {
                self.nixie_display.set_digit(0, self.minutes / 10, DotStatus::Digit2);
                self.nixie_display.set_digit(1, self.minutes % 10, DotStatus::Digit2);
            } else if self.display_status == DisplayMode::EmptyBattery {
                self.nixie_display.set_digit(0, 10, DotStatus::Digit2);
                self.nixie_display.set_digit(1, 10, DotStatus::Digit2);
            }
            self.nixie_display.update();
        } else if self.display_counter <= self.ticks_per_second * 3 {
            if self.display_status == DisplayMode::Both {
                self.nixie_display.enable();
                self.nixie_display.set_digit(0, charge_value, DotStatus::Off);
                self.nixie_display.set_digit(1, charge_value, DotStatus::Off);
                self.nixie_display.update();
            }
        } else {
            self.nixie_display.off();
            self.display_status = DisplayMode::Idle;
        }
    }
}

/// Gauge code for a charge level: `min(16, 10 + level / 16)`.
pub fn charge_code(charge_level: u8) -> (r: u8)
    ensures
        r == charge_value(charge_level),
        10 <= r <= MAX_DIGIT_CODE,
{
    let mut charge_value: u8 = 10 + charge_level / 16;
    if charge_value >= 16 {
        charge_value = 16;
    }
    charge_value
}

/// The clock after `n` ticks.
pub open spec fn ticks(c: NixieClock, n: nat) -> NixieClock
    decreases n,
{
    if n == 0 {
        c
    } else {
        ticks(c, (n - 1) as nat).ticked()
    }
}

/// A tick keeps a well-formed clock well formed.
pub proof fn lemma_tick_keeps_wf(c: NixieClock)
    requires
        c.wf(),
    ensures
        c.ticked().wf(),
{
}

/// After any number of ticks hours stay in 0..=23, minutes and seconds in 0..=59.
pub proof fn lemma_time_stays_in_range(c: NixieClock, n: nat)
    requires
        c.wf(),
    ensures
        ticks(c, n).wf(),
        ticks(c, n).hours < 24,
        ticks(c, n).minutes < 60,
        ticks(c, n).seconds < 60,
    decreases n,
{
    if n > 0 {
        lemma_time_stays_in_range(c, (n - 1) as nat);
        lemma_tick_keeps_wf(ticks(c, (n - 1) as nat));
    }
}

/// At 23:59:59 the tick that ends the second brings the clock to 00:00:00.
pub proof fn lemma_midnight_rollover(c: NixieClock)
    requires
        c.wf(),
        c.hours == 23,
        c.minutes == 59,
        c.seconds == 59,
        c.current_tick == c.ticks_per_second - 1,
    ensures
        c.ticked().hours == 0,
        c.ticked().minutes == 0,
        c.ticked().seconds == 0,
        c.ticked().current_tick == 0,
{
}

/// What a tick paints depends only on where the display counter lands, the
/// tick rate and the mode: the first quarter shows the hours with the first
/// dot, the second the minutes with the second dot, the third the gauge (in
/// the time-and-charge mode only), and past three quarters every line goes
/// low and the mode returns to idle.
pub proof fn lemma_slice_selection(c: NixieClock)
    requires
        c.wf(),
    ensures
        ({
            let d = c.ticked();
            let tps = d.ticks_per_second;
            let shown = d.nixie_display;
            let time_mode = d.display_status == DisplayMode::Time || d.display_status == DisplayMode::Both;
            &&& d.display_counter >= 1
            &&& (d.display_counter <= tps ==> shown.pins.enable)
            &&& (d.display_counter <= tps && time_mode ==> shown.nixie1_value == d.hours / 10
                && shown.nixie2_value == d.hours % 10 && shown.dot_status == DotStatus::Digit1)
            &&& (tps < d.display_counter <= 2 * tps ==> shown.pins.enable)
            &&& (tps < d.display_counter <= 2 * tps && time_mode ==> shown.nixie1_value == d.minutes
                / 10 && shown.nixie2_value == d.minutes % 10 && shown.dot_status == DotStatus::Digit2)
            &&& (2 * tps < d.display_counter <= 3 * tps && d.display_status == DisplayMode::Both
                ==> shown.nixie1_value == charge_value(d.charge_level) && shown.nixie2_value
                == charge_value(d.charge_level) && shown.dot_status == DotStatus::Off && shown.pins.enable)
            &&& (3 * tps < d.display_counter ==> d.display_status == DisplayMode::Idle && shown.pins
                == PinLevels::all_low())
        }),
{
}

/// The gauge code is monotonic in the charge level and clamped to 10..=16.
pub proof fn lemma_charge_value_monotonic(a: u8, b: u8)
    requires
        a <= b,
    ensures
        10 <= charge_value(a) <= charge_value(b) <= 16,
{
}

/// A request takes effect on the very next tick whatever the slice: the
/// mode becomes the requested one, the cycle restarts (the counter, reset
/// to 0, has advanced to 1) and the display is on.
pub proof fn lemma_request_takes_effect(c: NixieClock, mode: DisplayMode)
    requires
        c.wf(),
        mode != DisplayMode::Idle,
    ensures
        c.requested(mode).ticked().display_counter == 1,
        c.requested(mode).ticked().display_status == mode,
        c.requested(mode).ticked().display_new_status == DisplayMode::Idle,
        c.requested(mode).ticked().displaying,
{
}

} // verus!
