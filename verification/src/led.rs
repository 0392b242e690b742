//! Colours, LED ranges and colour updates.

use vstd::prelude::*;

verus! {

/// Number of LEDs on a strip.
pub const LED_COUNT: usize = 88;

/// One LED's colour.
#[derive(Clone, Copy, Debug, PartialEq, Eq, Structural)]
pub struct Color {
    pub red: u8,
    pub green: u8,
    pub blue: u8,
}

/// An inclusive range of LED indices.
#[derive(Clone, Copy, Debug, PartialEq, Eq, Structural)]
pub struct LedRange {
    pub start: u8,
    pub end: u8,
}

impl LedRange {
    /// The range is ordered and lies on the strip.
    pub open spec fn valid(&self) -> bool {
        self.start <= self.end && (self.end as int) < LED_COUNT as int
    }

    /// Number of LEDs in the range.
    pub open spec fn count(&self) -> int {
        self.end - self.start + 1
    }

    /// Whether the LED at `index` lies in the range.
    pub open spec fn contains(&self, index: int) -> bool {
        self.start <= index <= self.end
    }

    /// Tells whether the range is ordered and lies on the strip.
    pub fn is_valid(&self) -> (r: bool)
        ensures
            r == self.valid(),
    {
        self.start <= self.end && (self.end as usize) < LED_COUNT
    }

    /// Builds the range `start..=end`, if it is ordered and lies on the strip.
    pub fn new(start: u8, end: u8) -> (r: Option<LedRange>)
        ensures
            r == if start <= end && (end as int) < LED_COUNT as int {
                Some(LedRange { start, end })
            } else {
                None
            },
    {
        if start <= end && (end as usize) < LED_COUNT {
            Some(LedRange { start, end })
        } else {
            None
        }
    }

    /// The range that covers the whole strip.
    pub fn whole_strip() -> (r: LedRange)
        ensures
            r.valid(),
            r.start == 0,
            r.end as int == LED_COUNT as int - 1,
    {
        LedRange { start: 0, end: (LED_COUNT - 1) as u8 }
    }

    /// Number of LEDs in the range.
    pub fn len(&self) -> (n: usize)
        requires
            self.valid(),
        ensures
            n as int == self.count(),
            1 <= n <= LED_COUNT,
    {
        (self.end - self.start) as usize + 1
    }
}

/// The colour of every LED in `range` when all of them show `color`.
pub open spec fn solid_colors(range: LedRange, color: Color) -> Seq<Color> {
    Seq::new(range.count() as nat, |i: int| color)
}

/// A colour update for a range of LEDs.
#[derive(Clone, Debug, PartialEq, Eq)]
pub enum LedUpdate {
    /// Every LED of the range takes one colour.
    Solid { range: LedRange, color: Color },
    /// Each LED of the range takes its own colour, in LED order.
    PerLed { range: LedRange, colors: Vec<Color> },
}

/// A colour update as a sink sees it: the range, one colour for each of its
/// LEDs in LED order, and whether the colours came from an array.
pub struct UpdateView {
    pub range: LedRange,
    pub colors: Seq<Color>,
    pub buffered: bool,
}

impl View for LedUpdate {
    type V = UpdateView;

    open spec fn view(&self) -> UpdateView {
        UpdateView { range: self.range(), colors: self.colors(), buffered: self.is_buffered() }
    }
}

impl LedUpdate {
    /// The range is valid, and a per-LED update carries one colour for each of its LEDs.
    pub open spec fn valid(&self) -> bool {
        match self {
            LedUpdate::Solid { range, color } => range.valid(),
            LedUpdate::PerLed { range, colors } => range.valid() && colors@.len() == range.count(),
        }
    }

    /// The range of LEDs that the update touches.
    pub open spec fn range(&self) -> LedRange {
        match self {
            LedUpdate::Solid { range, color } => *range,
            LedUpdate::PerLed { range, colors } => *range,
        }
    }

    /// The colours that the LEDs of the range take, in LED order.
    pub open spec fn colors(&self) -> Seq<Color> {
        match self {
            LedUpdate::Solid { range, color } => solid_colors(*range, *color),
            LedUpdate::PerLed { range, colors } => colors@,
        }
    }

    /// Whether the colours come from an array, one per LED.
    pub open spec fn is_buffered(&self) -> bool {
        self is PerLed
    }

    /// The colour that the update gives to the LED at `index`.
    pub open spec fn color_of(&self, index: int) -> Color {
        self.colors()[index - self.range().start]
    }

    /// Tells whether the update is valid.
    pub fn is_valid(&self) -> (r: bool)
        ensures
            r == self.valid(),
    {
        match self {
            LedUpdate::Solid { range, color } => range.is_valid(),
            LedUpdate::PerLed { range, colors } => range.is_valid() && colors.len() == range.len(),
        }
    }

    /// The update that sets the whole strip to `color`.
    pub fn whole_strip(color: Color) -> (u: LedUpdate)
        ensures
            u == (LedUpdate::Solid { range: LedRange { start: 0, end: (LED_COUNT - 1) as u8 }, color }),
            u.valid(),
    {
        LedUpdate::Solid { range: LedRange::whole_strip(), color }
    }

    /// The range of LEDs that the update touches.
    pub fn led_range(&self) -> (r: LedRange)
        ensures
            r == self.range(),
    {
        match self {
            LedUpdate::Solid { range, color } => *range,
            LedUpdate::PerLed { range, colors } => *range,
        }
    }

    /// The colour that the update gives to the LED at `index`.
    pub fn color_at(&self, index: u8) -> (c: Color)
        requires
            self.valid(),
            self.range().contains(index as int),
        ensures
            c == self.color_of(index as int),
    {
        match self {
            LedUpdate::Solid { range, color } => *color,
            LedUpdate::PerLed { range, colors } => colors[(index - range.start) as usize],
        }
    }
}

} // verus!
