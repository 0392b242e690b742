//! The two hardware sinks: a strip attached to this controller, and a
//! secondary controller reached over a bus.

use vstd::prelude::*;
use crate::error::SinkError;
use crate::led::{Color, LedRange, LedUpdate, UpdateView, LED_COUNT};
use crate::memory::in_bounds;
use crate::output::{colors_at, translated, OutputDescriptor};

verus! {

/// First byte of every bus transaction.
pub const MODE_BYTE: u8 = 0;

/// Time, in milliseconds, that a bus transaction may take.
pub const BUS_TIMEOUT_MS: u32 = 10;

/// Number of bytes in a bus transaction before the colours.
pub const BUS_HEADER_LEN: usize = 3;

/// The channels of the colours in `colors`, three bytes each, in order.
pub open spec fn color_bytes(colors: Seq<Color>) -> Seq<u8> {
    Seq::new(
        3 * colors.len(),
        |i: int|
            if i % 3 == 0 {
                colors[i / 3].red
            } else if i % 3 == 1 {
                colors[i / 3].green
            } else {
                colors[i / 3].blue
            },
    )
}

/// A strip with every LED dark.
pub open spec fn dark_frame() -> Seq<Color> {
    Seq::new(LED_COUNT as nat, |i: int| Color { red: 0, green: 0, blue: 0 })
}

/// The strip `frame` after `update` was applied to it.
pub open spec fn painted(frame: Seq<Color>, update: UpdateView) -> Seq<Color> {
    Seq::new(
        frame.len(),
        |i: int|
            if update.range.contains(i) {
                update.colors[i - update.range.start]
            } else {
                frame[i]
            },
    )
}

/// The byte that tells the secondary controller where an update starts.
/// Buffered updates are addressed past the end of the strip, which keeps the
/// two kinds apart on the receiving side.
pub open spec fn bus_address(update: UpdateView) -> int {
    if update.buffered {
        LED_COUNT + update.range.start
    } else {
        update.range.start as int
    }
}

/// The colour bytes of a bus transaction: one colour for an unbuffered
/// update, one for each LED of a buffered one.
pub open spec fn bus_colors(update: UpdateView) -> Seq<u8> {
    if update.buffered {
        color_bytes(update.colors)
    } else {
        color_bytes(update.colors.subrange(0, 1))
    }
}

/// The bytes of the bus transaction for `update`, between the start and the
/// stop condition.
pub open spec fn bus_bytes(update: UpdateView) -> Seq<u8> {
    seq![MODE_BYTE, bus_address(update) as u8, update.range.end] + bus_colors(update)
}

/// A strip attached to this controller, as the colours it shows.
#[derive(Clone, Debug, PartialEq, Eq)]
pub struct LocalStripSink {
    pub frame: Vec<Color>,
}

impl LocalStripSink {
    /// The frame has one colour for each LED of the strip.
    pub open spec fn valid(&self) -> bool {
        self.frame@.len() == LED_COUNT
    }

    /// Tells whether the frame has one colour for each LED of the strip.
    pub fn is_valid(&self) -> (r: bool)
        ensures
            r == self.valid(),
    {
        self.frame.len() == LED_COUNT
    }

    /// A strip with every LED dark.
    pub fn new() -> (sink: LocalStripSink)
        ensures
            sink.valid(),
            sink.frame@ == dark_frame(),
    {
        let mut frame: Vec<Color> = Vec::new();
        let mut i: usize = 0;
        while i < LED_COUNT
            invariant
                i <= LED_COUNT,
                frame@.len() == i,
                forall|k: int| 0 <= k < i ==> frame@[k] == (Color { red: 0, green: 0, blue: 0 }),
            decreases LED_COUNT - i,
        {
            frame.push(Color { red: 0, green: 0, blue: 0 });
            i = i + 1;
        }
        assert(frame@ =~= dark_frame());
        LocalStripSink { frame }
    }

    /// A copy of the colours that the strip shows.
    pub fn snapshot(&self) -> (frame: Vec<Color>)
        ensures
            frame@ == self.frame@,
    {
        let mut frame: Vec<Color> = Vec::new();
        let mut i: usize = 0;
        while i < self.frame.len()
            invariant
                i <= self.frame@.len(),
                frame@ == self.frame@.subrange(0, i as int),
            decreases self.frame@.len() - i,
        {
            frame.push(self.frame[i]);
            i = i + 1;
            assert(frame@ =~= self.frame@.subrange(0, i as int));
        }
        assert(self.frame@.subrange(0, i as int) =~= self.frame@);
        frame
    }

    /// Sets the LEDs of the update's range to its colours and leaves the
    /// others as they are.  The caller then flushes the frame to the strip.
    pub fn apply(&mut self, update: &LedUpdate)
        requires
            old(self).valid(),
            update.valid(),
        ensures
            final(self).valid(),
            final(self).frame@ == painted(old(self).frame@, update@),
    {
        let range = update.led_range();
        let mut led: u8 = range.start;
        while led <= range.end
            invariant
                self.valid(),
                old(self).valid(),
                update.valid(),
                range == update.range(),
                range.start <= led <= range.end + 1,
                forall|k: int| 0 <= k < led ==> self.frame@[k] == painted(old(self).frame@, update@)[k],
                forall|k: int| led <= k < LED_COUNT ==> self.frame@[k] == old(self).frame@[k],
            decreases range.end + 1 - led,
        {
            let color = update.color_at(led);
            self.frame[led as usize] = color;
            led = led + 1;
        }
        assert(self.frame@ =~= painted(old(self).frame@, update@));
    }
}

/// One transaction on the bus to the secondary controller: the bytes to send
/// between the start and the stop condition, and the time it may take.
#[derive(Clone, Debug, PartialEq, Eq)]
pub struct BusTransaction {
    pub bytes: Vec<u8>,
    pub timeout_ms: u32,
}

/// How a bus transaction ended.
#[derive(Clone, Copy, Debug, PartialEq, Eq, Structural)]
pub enum BusOutcome {
    /// The secondary controller acknowledged every byte.
    Ack,
    /// The secondary controller refused a byte.
    Nack,
    /// The transaction did not finish in time.
    Timeout,
}

/// A secondary controller that drives its own strip.
#[derive(Clone, Copy, Debug, PartialEq, Eq, Structural)]
pub struct I2CForwardSink {}

impl I2CForwardSink {
    /// Builds the one bus transaction that carries `update`.
    pub fn apply(&self, update: &LedUpdate) -> (t: BusTransaction)
        requires
            update.valid(),
        ensures
            t.bytes@ == bus_bytes(update@),
            t.timeout_ms == BUS_TIMEOUT_MS,
    {
        let mut bytes: Vec<u8> = Vec::new();
        bytes.push(MODE_BYTE);
        match update {
            LedUpdate::Solid { range, color } => {
                bytes.push(range.start);
                bytes.push(range.end);
                bytes.push(color.red);
                bytes.push(color.green);
                bytes.push(color.blue);
                proof {
                    let one = update@.colors.subrange(0, 1);
                    assert(one.len() == 1 && one[0] == *color);
                    assert(bytes@ =~= bus_bytes(update@));
                }
            },
            LedUpdate::PerLed { range, colors } => {
                bytes.push(LED_COUNT as u8 + range.start);
                bytes.push(range.end);
                let mut i: usize = 0;
                while i < colors.len()
                    invariant
                        i <= colors@.len(),
                        bytes@.len() == BUS_HEADER_LEN + 3 * i,
                        bytes@.subrange(0, BUS_HEADER_LEN as int) == bus_bytes(update@).subrange(
                            0,
                            BUS_HEADER_LEN as int,
                        ),
                        forall|k: int|
                            0 <= k < 3 * i ==> bytes@[BUS_HEADER_LEN + k] == color_bytes(colors@)[k],
                    decreases colors@.len() - i,
                {
                    let color = colors[i];
                    bytes.push(color.red);
                    bytes.push(color.green);
                    bytes.push(color.blue);
                    i = i + 1;
                }
                proof {
                    assert forall|k: int| 0 <= k < bytes@.len() implies bytes@[k] == bus_bytes(
                        update@,
                    )[k] by {
                        if k >= 3 {
                            assert(bytes@[BUS_HEADER_LEN + (k - 3)] == color_bytes(colors@)[k - 3]);
                        } else {
                            assert(bytes@[k] == bytes@.subrange(0, 3)[k]);
                            assert(bus_bytes(update@)[k] == bus_bytes(update@).subrange(0, 3)[k]);
                        }
                    }
                    assert(bytes@ =~= bus_bytes(update@));
                }
            },
        }
        BusTransaction { bytes, timeout_ms: BUS_TIMEOUT_MS }
    }

    /// What a transaction's end means for the update it carried.
    pub fn outcome(result: BusOutcome) -> (r: Result<(), SinkError>)
        ensures
            r == match result {
                BusOutcome::Ack => Ok::<(), SinkError>(()),
                BusOutcome::Nack => Err(SinkError::BusNack),
                BusOutcome::Timeout => Err(SinkError::BusTimeout),
            },
    {
        match result {
            BusOutcome::Ack => Ok(()),
            BusOutcome::Nack => Err(SinkError::BusNack),
            BusOutcome::Timeout => Err(SinkError::BusTimeout),
        }
    }
}

/// Which of the two sinks a deployment uses.
#[derive(Clone, Copy, Debug, PartialEq, Eq, Structural)]
pub enum SinkKind {
    LocalStrip,
    I2cForward,
}

/// The sink that updates go to: one of the two kinds.
#[derive(Clone, Debug, PartialEq, Eq)]
pub enum HardwareSink {
    LocalStrip(LocalStripSink),
    I2cForward(I2CForwardSink),
}

/// A sink over mathematical values: an attached strip is the colours it shows.
pub enum SinkView {
    LocalStrip(Seq<Color>),
    I2cForward,
}

impl View for HardwareSink {
    type V = SinkView;

    open spec fn view(&self) -> SinkView {
        match self {
            HardwareSink::LocalStrip(strip) => SinkView::LocalStrip(strip.frame@),
            HardwareSink::I2cForward(_) => SinkView::I2cForward,
        }
    }
}

/// What the caller must do with the hardware after a sink took an update.
#[derive(Clone, Debug, PartialEq, Eq)]
pub enum SinkRequest {
    /// Write these colours, one for each LED, to the attached strip.
    Flush(Vec<Color>),
    /// Run this transaction on the bus.
    Transact(BusTransaction),
}

/// A sink request over mathematical values.
pub enum RequestView {
    Flush(Seq<Color>),
    Transact(Seq<u8>),
}

impl View for SinkRequest {
    type V = RequestView;

    open spec fn view(&self) -> RequestView {
        match self {
            SinkRequest::Flush(frame) => RequestView::Flush(frame@),
            SinkRequest::Transact(transaction) => RequestView::Transact(transaction.bytes@),
        }
    }
}

/// A sink of the given kind before it took any update: an attached strip
/// starts with every LED dark.
pub open spec fn fresh_sink(kind: SinkKind) -> SinkView {
    match kind {
        SinkKind::LocalStrip => SinkView::LocalStrip(dark_frame()),
        SinkKind::I2cForward => SinkView::I2cForward,
    }
}

/// The sink after it took `update`.
pub open spec fn sink_after(sink: SinkView, update: UpdateView) -> SinkView {
    match sink {
        SinkView::LocalStrip(frame) => SinkView::LocalStrip(painted(frame, update)),
        SinkView::I2cForward => SinkView::I2cForward,
    }
}

/// The hardware work that `update` asks of `sink`.
pub open spec fn sink_request(sink: SinkView, update: UpdateView) -> RequestView {
    match sink {
        SinkView::LocalStrip(frame) => RequestView::Flush(painted(frame, update)),
        SinkView::I2cForward => RequestView::Transact(bus_bytes(update)),
    }
}

impl SinkRequest {
    /// A bus transaction carries the bus's timeout.
    pub open spec fn valid(&self) -> bool {
        match self {
            SinkRequest::Flush(frame) => frame@.len() == LED_COUNT,
            SinkRequest::Transact(transaction) => transaction.timeout_ms == BUS_TIMEOUT_MS,
        }
    }
}

impl HardwareSink {
    /// An attached strip has one colour for each of its LEDs.
    pub open spec fn valid(&self) -> bool {
        match self {
            HardwareSink::LocalStrip(strip) => strip.valid(),
            HardwareSink::I2cForward(_) => true,
        }
    }

    /// Tells whether the sink is valid.
    pub fn is_valid(&self) -> (r: bool)
        ensures
            r == self.valid(),
    {
        match self {
            HardwareSink::LocalStrip(strip) => strip.is_valid(),
            HardwareSink::I2cForward(_) => true,
        }
    }

    /// A sink of the given kind that has taken no update yet.
    pub fn new(kind: SinkKind) -> (sink: HardwareSink)
        ensures
            sink.valid(),
            sink@ == fresh_sink(kind),
    {
        match kind {
            SinkKind::LocalStrip => HardwareSink::LocalStrip(LocalStripSink::new()),
            SinkKind::I2cForward => HardwareSink::I2cForward(I2CForwardSink {  }),
        }
    }

    /// Hands `update` to the sink and says what the hardware must now do.
    pub fn apply(&mut self, update: &LedUpdate) -> (request: SinkRequest)
        requires
            old(self).valid(),
            update.valid(),
        ensures
            final(self).valid(),
            final(self)@ == sink_after(old(self)@, update@),
            request@ == sink_request(old(self)@, update@),
            request.valid(),
    {
        match self {
            HardwareSink::LocalStrip(strip) => {
                strip.apply(update);
                SinkRequest::Flush(strip.snapshot())
            },
            HardwareSink::I2cForward(bus) => SinkRequest::Transact(bus.apply(update)),
        }
    }
}

/// An attached strip takes an update on the LEDs of its range and on no other.
pub proof fn lemma_painted(frame: Seq<Color>, update: UpdateView)
    requires
        frame.len() == LED_COUNT,
        update.range.valid(),
        update.colors.len() == update.range.count(),
    ensures
        painted(frame, update).len() == LED_COUNT,
        forall|led: int|
            update.range.start <= led <= update.range.end ==> painted(frame, update)[led]
                == update.colors[led - update.range.start],
        forall|led: int|
            0 <= led < LED_COUNT && !(update.range.start <= led <= update.range.end) ==> painted(
                frame,
                update,
            )[led] == frame[led],
{
}

/// The layout of a bus transaction: the mode byte, the address byte, the end
/// byte, then the colours.  An unbuffered update is addressed by its first
/// LED and carries one colour; a buffered one is addressed by its first LED
/// plus the strip's length and carries a colour for each LED, in LED order.
pub proof fn lemma_bus_layout(update: UpdateView)
    requires
        update.range.valid(),
        update.colors.len() == update.range.count(),
    ensures
        bus_bytes(update)[0] == MODE_BYTE,
        bus_bytes(update)[1] == if update.buffered {
            LED_COUNT + update.range.start
        } else {
            update.range.start as int
        },
        bus_bytes(update)[2] == update.range.end,
        bus_bytes(update).len() == if update.buffered {
            BUS_HEADER_LEN + 3 * update.range.count()
        } else {
            BUS_HEADER_LEN + 3
        },
        !update.buffered ==> bus_bytes(update).subrange(3, 6) == seq![
            update.colors[0].red,
            update.colors[0].green,
            update.colors[0].blue,
        ],
        update.buffered ==> forall|i: int|
            0 <= i < update.range.count() ==> {
                &&& #[trigger] bus_bytes(update)[3 + 3 * i] == update.colors[i].red
                &&& bus_bytes(update)[3 + 3 * i + 1] == update.colors[i].green
                &&& bus_bytes(update)[3 + 3 * i + 2] == update.colors[i].blue
            },
{
    if update.buffered {
        assert forall|i: int| 0 <= i < update.range.count() implies {
            &&& #[trigger] bus_bytes(update)[3 + 3 * i] == update.colors[i].red
            &&& bus_bytes(update)[3 + 3 * i + 1] == update.colors[i].green
            &&& bus_bytes(update)[3 + 3 * i + 2] == update.colors[i].blue
        } by {
            assert((3 * i) / 3 == i && (3 * i) % 3 == 0);
            assert((3 * i + 1) / 3 == i && (3 * i + 1) % 3 == 1);
            assert((3 * i + 2) / 3 == i && (3 * i + 2) % 3 == 2);
        }
    } else {
        assert(update.colors.subrange(0, 1)[0] == update.colors[0]);
        assert(bus_bytes(update).subrange(3, 6) =~= seq![
            update.colors[0].red,
            update.colors[0].green,
            update.colors[0].blue,
        ]);
    }
}

/// The colours that a buffered update carries over the bus are the very bytes
/// of the guest's array.
pub proof fn lemma_color_bytes_of_memory(mem: Seq<u8>, ptr: int, count: int)
    requires
        0 <= count,
        in_bounds(mem.len() as int, ptr, 3 * count),
    ensures
        color_bytes(colors_at(mem, ptr, count)) == mem.subrange(ptr, ptr + 3 * count),
{
    let colors = colors_at(mem, ptr, count);
    let bytes = color_bytes(colors);
    assert forall|k: int| 0 <= k < 3 * count implies bytes[k] == mem[ptr + k] by {
        let i = k / 3;
        assert(0 <= i < count);
        assert(k == 3 * i + k % 3);
    }
    assert(bytes =~= mem.subrange(ptr, ptr + 3 * count));
}

/// The bus transaction of an unbuffered descriptor: mode byte, first LED,
/// last LED, and the one colour.
pub proof fn lemma_unbuffered_transaction(mem: Seq<u8>, start: u8, end: u8, color: Color)
    requires
        (LedRange { start, end }).valid(),
    ensures
        translated(mem, OutputDescriptor::Unbuffered { start, end, color }) is Ok,
        bus_bytes(translated(mem, OutputDescriptor::Unbuffered { start, end, color })->Ok_0)
            == seq![MODE_BYTE, start, end, color.red, color.green, color.blue],
{
    let update = translated(mem, OutputDescriptor::Unbuffered { start, end, color })->Ok_0;
    lemma_bus_layout(update);
    assert(bus_bytes(update) =~= seq![
        MODE_BYTE,
        start,
        end,
        color.red,
        color.green,
        color.blue,
    ]) by {
        assert(bus_bytes(update).subrange(3, 6)[0] == color.red);
        assert(bus_bytes(update).subrange(3, 6)[1] == color.green);
        assert(bus_bytes(update).subrange(3, 6)[2] == color.blue);
    }
}

/// The bus transaction of a buffered descriptor: mode byte, first LED plus
/// the strip's length, last LED, and then the bytes of the guest's array as
/// they stand in guest memory.
pub proof fn lemma_buffered_transaction(mem: Seq<u8>, start: u8, end: u8, source_ptr: u32)
    requires
        (LedRange { start, end }).valid(),
        in_bounds(mem.len() as int, source_ptr as int, 3 * (end - start + 1)),
    ensures
        translated(mem, OutputDescriptor::Buffered { start, end, source_ptr }) is Ok,
        bus_bytes(translated(mem, OutputDescriptor::Buffered { start, end, source_ptr })->Ok_0)
            == seq![MODE_BYTE, (LED_COUNT + start) as u8, end] + mem.subrange(
            source_ptr as int,
            source_ptr + 3 * (end - start + 1),
        ),
        LED_COUNT + start <= u8::MAX,
{
    lemma_color_bytes_of_memory(mem, source_ptr as int, end - start + 1);
}

} // verus!
