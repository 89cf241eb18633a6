//! Multiplexer for two digit tubes that share one seven-line segment bus.
//!
//! The multiplexer keeps the level of every output line as plain state;
//! whoever owns the hardware pins copies those levels onto them.
use vstd::prelude::*;

verus! {

/// Which tube's decimal point is lit.
#[derive(PartialEq, Eq, Structural, Clone, Copy, Debug)]
pub enum DotStatus {
    Off,
    Digit1,
    Digit2,
}

/// Largest digit code: 0-9 are decimal digits, 10 is blank, 11-16 are the
/// battery-gauge pictograms.
pub const MAX_DIGIT_CODE: u8 = 16;

/// Segment mask of each digit code; bit `i` drives segment line `i`.
pub open spec fn segment_pattern(code: u8) -> u32 {
    if code == 0 { 0x3F }
    else if code == 1 { 0x06 }
    else if code == 2 { 0x5B }
    else if code == 3 { 0x4F }
    else if code == 4 { 0x66 }
    else if code == 5 { 0x6D }
    else if code == 6 { 0x7D }
    else if code == 7 { 0x07 }
    else if code == 8 { 0x7F }
    else if code == 9 { 0x6F }
    else if code == 10 { 0x00 }
    else if code == 11 { 0x01 }
    else if code == 12 { 0x03 }
    else if code == 13 { 0x07 }
    else if code == 14 { 0x0F }
    else if code == 15 { 0x1F }
    else { 0x3F }
}

/// Looks up the segment mask of a digit code.
pub fn digit_pattern(code: u8) -> (r: u32)
    requires
        code <= MAX_DIGIT_CODE,
    ensures
        r == segment_pattern(code),
        r < 0x80,
{
    match code {
        0 => 0x3F,
        1 => 0x06,
        2 => 0x5B,
        3 => 0x4F,
        4 => 0x66,
        5 => 0x6D,
        6 => 0x7D,
        7 => 0x07,
        8 => 0x7F,
        9 => 0x6F,
        10 => 0x00,
        11 => 0x01,
        12 => 0x03,
        13 => 0x07,
        14 => 0x0F,
        15 => 0x1F,
        _ => 0x3F,
    }
}

/// Bit `n` of `input`, numbered from 0 (least significant) to 31; false past 31.
pub open spec fn bit_of(input: u32, n: u8) -> bool {
    n < 32 && (input >> (n as u32)) & 1 == 1
}

/// Gets the bit at position `n`. Bits are numbered from 0 (least significant)
/// to 31 (most significant); any other position reads as clear.
pub fn get_bit_at(input: u32, n: u8) -> (r: bool)
    ensures
        r == bit_of(input, n),
{
    if n < 32 {
        let r = input & (1u32 << n) != 0;
        assert(r == ((input >> (n as u32)) & 1 == 1)) by (bit_vector)
            requires
                n < 32,
                r == (input & (1u32 << n) != 0),
        ;
        r
    } else {
        false
    }
}

/// Levels of the display's output lines: the two tube anodes, the seven
/// segment lines (as a mask, bit `i` for line `i`), the decimal point and the
/// high-voltage bus enable.
#[derive(PartialEq, Eq, Structural, Clone, Copy, Debug)]
pub struct PinLevels {
    pub nixie1: bool,
    pub nixie2: bool,
    pub segments: u32,
    pub dot: bool,
    pub enable: bool,
}

impl PinLevels {
    /// Every line low.
    pub open spec fn all_low() -> PinLevels {
        PinLevels { nixie1: false, nixie2: false, segments: 0, dot: false, enable: false }
    }

    /// Level of segment line `i`.
    pub fn segment(&self, i: u8) -> (r: bool)
        ensures
            r == bit_of(self.segments, i),
    {
        get_bit_at(self.segments, i)
    }
}

/// Two multiplexed tubes: the code each one should show, which decimal point
/// is lit, a one-bit alternator (the low bit of `display_counter`) and the
/// current levels of the output lines.
pub struct NixieDisplay {
    pub nixie1_value: u8,
    pub nixie2_value: u8,
    pub display_counter: u8,
    pub dot_status: DotStatus,
    pub pins: PinLevels,
}

impl NixieDisplay {
    /// Both pending codes are valid digit codes.
    pub open spec fn wf(&self) -> bool {
        self.nixie1_value <= MAX_DIGIT_CODE && self.nixie2_value <= MAX_DIGIT_CODE
    }

    /// Pending code of tube `slot` (0 is the first tube, any other value the second).
    pub open spec fn value_of(&self, slot: u8) -> u8 {
        if slot == 0 {
            self.nixie1_value
        } else {
            self.nixie2_value
        }
    }

    /// The display with tube `slot` energized: only its anode is high, the
    /// segments show its pending code, and the decimal point is high iff the
    /// dot belongs to that tube.
    pub open spec fn rendered(self, slot: u8) -> NixieDisplay {
        NixieDisplay {
            pins: PinLevels {
                nixie1: slot == 0,
                nixie2: slot != 0,
                segments: segment_pattern(self.value_of(slot)),
                dot: if slot == 0 {
                    self.dot_status == DotStatus::Digit1
                } else {
                    self.dot_status == DotStatus::Digit2
                },
                enable: self.pins.enable,
            },
            ..self
        }
    }

    /// The alternator after one step.
    pub open spec fn next_counter(&self) -> u8 {
        ((self.display_counter + 1) % 256) as u8
    }

    /// The display after one multiplexing step: the alternator advances and
    /// the tube it selects is rendered.
    pub open spec fn updated(self) -> NixieDisplay {
        let c = self.next_counter();
        let stepped = NixieDisplay { display_counter: c, ..self };
        if c % 2 == 0 {
            stepped.rendered(0)
        } else {
            stepped.rendered(1)
        }
    }

    /// A display showing codes 3 and 8, no decimal point, every line low.
    pub fn new() -> (r: NixieDisplay)
        ensures
            r.wf(),
            r.nixie1_value == 3,
            r.nixie2_value == 8,
            r.display_counter == 0,
            r.dot_status == DotStatus::Off,
            r.pins == PinLevels::all_low(),
    {
        NixieDisplay {
            nixie1_value: 3,
            nixie2_value: 8,
            display_counter: 0,
            dot_status: DotStatus::Off,
            pins: PinLevels { nixie1: false, nixie2: false, segments: 0, dot: false, enable: false },
        }
    }

    fn display_digit(&mut self, digit: u8)
        requires
            old(self).wf(),
        ensures
            *final(self) == old(self).rendered(digit),
    {
        self.pins.nixie1 = false;
        self.pins.nixie2 = false;
        self.pins.dot = false;
        let digit_to_display = if digit == 0 {
            self.nixie1_value
        } else {
            self.nixie2_value
        };
        self.pins.segments = digit_pattern(digit_to_display);
        if digit == 0 {
            self.pins.nixie1 = true;
            self.pins.nixie2 = false;
            if self.dot_status == DotStatus::Digit1 {
                self.pins.dot = true;
            }
        } else {
            self.pins.nixie2 = true;
            self.pins.nixie1 = false;
            if self.dot_status == DotStatus::Digit2 {
                self.pins.dot = true;
            }
        }
    }

    /// Advances the alternator and energizes the tube it selects (the first
    /// tube on an even count, the second on an odd one).
    pub fn update(&mut self)
        requires
            old(self).wf(),
        ensures
            *final(self) == old(self).updated(),
            final(self).wf(),
    {
        self.display_counter = self.display_counter.wrapping_add(1);
        if self.display_counter % 2 == 0 {
            self.display_digit(0);
        } else {
            self.display_digit(1);
        }
    }

    /// Stores the code for tube `digit` (0 is the first tube, any other value
    /// the second) and the decimal-point slot, without touching any line.
    pub fn set_digit(&mut self, digit: u8, value: u8, dot_status: DotStatus)
        requires
            value <= MAX_DIGIT_CODE,
            old(self).wf(),
        ensures
            final(self).wf(),
            final(self).nixie1_value == if digit == 0 { value } else { old(self).nixie1_value },
            final(self).nixie2_value == if digit == 0 { old(self).nixie2_value } else { value },
            final(self).dot_status == dot_status,
            final(self).display_counter == old(self).display_counter,
            final(self).pins == old(self).pins,
    {
        if digit == 0 {
            self.nixie1_value = value;
        } else {
            self.nixie2_value = value;
        }
        self.dot_status = dot_status;
    }

    /// Drives every line low: anodes, decimal point, bus enable and segments.
    pub fn off(&mut self)
        ensures
            final(self).pins == PinLevels::all_low(),
            final(self).nixie1_value == old(self).nixie1_value,
            final(self).nixie2_value == old(self).nixie2_value,
            final(self).display_counter == old(self).display_counter,
            final(self).dot_status == old(self).dot_status,
    {
        self.pins.nixie1 = false;
        self.pins.nixie2 = false;
        self.pins.dot = false;
        self.pins.enable = false;
        self.pins.segments = 0;
    }

    /// Raises the high-voltage bus enable line.
    pub fn enable(&mut self)
        ensures
            *final(self) == (NixieDisplay { pins: PinLevels { enable: true, ..old(self).pins }, ..*old(self) }),
    {
        self.pins.enable = true;
    }
}

/// One update lights exactly one tube; the segment mask is the table entry
/// of that tube's code, and the decimal point is high iff the dot belongs
/// to that tube.
pub proof fn lemma_update_renders_one_tube(d: NixieDisplay)
    requires
        d.wf(),
    ensures
        ({
            let u = d.updated();
            let slot: u8 = if u.display_counter % 2 == 0 { 0 } else { 1 };
            &&& u.pins.nixie1 != u.pins.nixie2
            &&& u.pins.nixie1 == (slot == 0)
            &&& u.pins.segments == segment_pattern(d.value_of(slot))
            &&& u.pins.dot == (d.dot_status == if slot == 0 {
                DotStatus::Digit1
            } else {
                DotStatus::Digit2
            })
            &&& u.pins.enable == d.pins.enable
        }),
{
}

/// Two consecutive updates light different tubes.
pub proof fn lemma_updates_alternate(d: NixieDisplay)
    requires
        d.wf(),
    ensures
        d.updated().updated().pins.nixie1 != d.updated().pins.nixie1,
{
}

} // verus!
