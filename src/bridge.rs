//! Hand-off between execution contexts.
//!
//! Hardware handles are staged once at boot in a slot and claimed once by
//! the context that keeps them; afterwards that context holds them in its own
//! storage. Small signals (motion seen, a time to set) cross contexts as
//! independent values; the timer context's decisions on them are a step
//! function from a snapshot of its inputs to the changes it publishes.
use vstd::prelude::*;
use crate::clock::{DisplayMode, NixieClock};

verus! {

/// A staging slot that holds a handle from boot until its owner claims it.
pub struct StagingSlot<T> {
    pub item: Option<T>,
}

impl<T> StagingSlot<T> {
    /// An empty slot.
    pub fn new() -> (r: StagingSlot<T>)
        ensures
            r.item is None,
    {
        StagingSlot { item: None }
    }

    /// Places `item` in the slot.
    pub fn stage(&mut self, item: T)
        ensures
            final(self).item == Some(item),
    {
        self.item = Some(item);
    }

    /// Whether a handle waits in the slot.
    pub fn is_staged(&self) -> (r: bool)
        ensures
            r == self.item is Some,
    {
        self.item.is_some()
    }

    /// Takes the handle out, leaving the slot empty. Claiming an empty slot
    /// is a programming error, ruled out by the precondition.
    pub fn claim(&mut self) -> (r: T)
        requires
            old(self).item is Some,
        ensures
            old(self).item == Some(r),
            final(self).item is None,
    {
        self.item.take().unwrap()
    }
}

/// Gives a context its handle: on first use (`local` empty) the handle moves
/// from `slot` into `local`; afterwards both stay as they are.
pub fn claim_once<T>(local: &mut Option<T>, slot: &mut StagingSlot<T>)
    requires
        *old(local) is Some || old(slot).item is Some,
    ensures
        *final(local) is Some,
        *old(local) is Some ==> *final(local) == *old(local) && final(slot).item == old(slot).item,
        *old(local) is None ==> *final(local) == old(slot).item && final(slot).item is None,
{
    if local.is_none() {
        *local = Some(slot.claim());
    }
}

/// Offset of the battery reading at an empty cell.
pub const BATTERY_OFFSET: u16 = 2050;

/// Ticks between two looks at the motion and charge signals, less one.
pub const WAKE_CHECK_PERIOD: u8 = 50;

/// Charge level for a raw battery reading: the reading above the offset
/// (0 below it), divided by 4, capped at 255.
pub open spec fn battery_level_of(raw: u16) -> u8 {
    let above: int = if raw >= BATTERY_OFFSET { raw - BATTERY_OFFSET } else { 0 };
    if above / 4 > 255 {
        255
    } else {
        (above / 4) as u8
    }
}

/// Charge level for a raw battery reading: the reading above the offset
/// (0 below it), divided by 4, capped at 255.
pub fn battery_level(raw: u16) -> (r: u8)
    ensures
        r == battery_level_of(raw),
{
    let above: u16 = raw.saturating_sub(BATTERY_OFFSET);
    let quarter: u16 = above / 4;
    if quarter > 255 {
        255
    } else {
        quarter as u8
    }
}

/// What the timer context reads at one tick: the time-set request and the
/// time it carries, the motion flag, the charge-status line (high when
/// charging is complete) and the raw battery reading.
#[derive(PartialEq, Eq, Structural, Clone, Copy, Debug)]
pub struct TimerInputs {
    pub time_set: bool,
    pub pending_hours: u8,
    pub pending_minutes: u8,
    pub motion: bool,
    pub charge_done: bool,
    pub battery_raw: u16,
}

/// What the timer context publishes after a tick: whether to clear the
/// time-set request, the time to publish for the serial context (if any),
/// and whether to clear the motion flag.
#[derive(Clone, Copy, Debug)]
pub struct TimerActions {
    pub clear_time_set: bool,
    pub publish_time: Option<(u8, u8)>,
    pub clear_motion: bool,
}

/// The timer context's own state: ticks since it last looked at the motion
/// and charge signals.
pub struct TimerContext {
    pub wake_counter: u8,
}

/// Whether a time-set request carries a time in range.
pub open spec fn pending_valid(inputs: TimerInputs) -> bool {
    inputs.pending_hours < 24 && inputs.pending_minutes < 60
}

/// The clock after the timer context's step, before the wake check.
pub open spec fn synced_clock(c: NixieClock, inputs: TimerInputs) -> NixieClock {
    let t = c.ticked();
    let s = if inputs.time_set && pending_valid(inputs) {
        NixieClock { hours: inputs.pending_hours, minutes: inputs.pending_minutes, ..t }
    } else {
        t
    };
    NixieClock { charge_level: battery_level_of(inputs.battery_raw), ..s }
}

impl TimerContext {
    /// A context that has not looked at the signals yet.
    pub fn new() -> (r: TimerContext)
        ensures
            r.wake_counter == 0,
    {
        TimerContext { wake_counter: 0 }
    }

    /// Whether the step after `counter` looks at the motion and charge signals.
    pub open spec fn wakes(counter: u8) -> bool {
        counter + 1 > WAKE_CHECK_PERIOD
    }

    /// One timer tick.
    ///
    /// The clock ticks. A time-set request is taken up (the time is set when
    /// in range) and cleared; without one, the clock's time is published for
    /// the serial context. The battery reading becomes the charge level.
    /// Every `WAKE_CHECK_PERIOD + 1` ticks, motion asks for the time (and the
    /// motion flag is cleared), or else a complete charge asks for the
    /// charge display.
    pub fn step(&mut self, clock: &mut NixieClock, inputs: TimerInputs) -> (r: TimerActions)
        requires
            old(clock).wf(),
            old(self).wake_counter <= WAKE_CHECK_PERIOD,
        ensures
            final(clock).wf(),
            final(self).wake_counter <= WAKE_CHECK_PERIOD,
            ({
                let s = synced_clock(*old(clock), inputs);
                let wake = Self::wakes(old(self).wake_counter);
                &&& *final(clock) == if wake && inputs.motion {
                    s.requested(DisplayMode::Time)
                } else if wake && inputs.charge_done {
                    s.requested(DisplayMode::Charge)
                } else {
                    s
                }
                &&& final(self).wake_counter == if wake { 0 } else { old(self).wake_counter + 1 }
                &&& r.clear_time_set == inputs.time_set
                &&& r.publish_time == if inputs.time_set {
                    None
                } else {
                    Some((old(clock).ticked().hours, old(clock).ticked().minutes))
                }
                &&& r.clear_motion == (wake && inputs.motion)
            }),
    {
        clock.tick();
        let publish_time = if inputs.time_set {
            if inputs.pending_hours < 24 && inputs.pending_minutes < 60 {
                clock.set_time(inputs.pending_hours, inputs.pending_minutes);
            }
            None
        } else {
            Some(clock.get_time())
        };
        clock.set_charge_level(battery_level(inputs.battery_raw));

        let mut clear_motion = false;
        self.wake_counter = self.wake_counter + 1;
        if self.wake_counter > WAKE_CHECK_PERIOD {
            self.wake_counter = 0;
            if inputs.motion {
                clear_motion = true;
                clock.show_time();
            } else if inputs.charge_done {
                clock.show_charge();
            }
        }
        TimerActions { clear_time_set: inputs.time_set, publish_time, clear_motion }
    }
}

} // verus!
