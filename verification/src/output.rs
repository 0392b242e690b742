//! The output descriptor that a program leaves in guest memory each tick, and
//! its translation into a colour update.
//!
//! At the address that the program returns, guest memory holds one byte that
//! names the variant and then the variant's fields:
//!
//! | variant    | byte 0 | bytes 1-2      | then                                   |
//! |------------|--------|----------------|----------------------------------------|
//! | unbuffered | `0`    | `start`, `end` | bytes 3-5: red, green, blue            |
//! | buffered   | `1`    | `start`, `end` | bytes 3-6: little-endian address of an |
//! |            |        |                | array of `end - start + 1` RGB triples |

use vstd::prelude::*;
use crate::bytes::{le_u32_at, u32_from_le};
use crate::error::ProgramRuntimeError;
use crate::led::{solid_colors, Color, LedRange, LedUpdate, UpdateView, LED_COUNT};
use crate::memory::{check_bounds, in_bounds};

verus! {

/// First byte of an unbuffered descriptor.
pub const TAG_UNBUFFERED: u8 = 0;

/// First byte of a buffered descriptor.
pub const TAG_BUFFERED: u8 = 1;

/// Number of bytes that an unbuffered descriptor takes up.
pub const UNBUFFERED_LEN: usize = 6;

/// Number of bytes that a buffered descriptor takes up.
pub const BUFFERED_LEN: usize = 7;

/// What a program asks for in one tick, as read from guest memory.
#[derive(Clone, Copy, Debug, PartialEq, Eq, Structural)]
pub enum OutputDescriptor {
    /// LEDs `start..=end` all take `color`.
    Unbuffered { start: u8, end: u8, color: Color },
    /// LEDs `start..=end` take the RGB triples that start at `source_ptr`.
    Buffered { start: u8, end: u8, source_ptr: u32 },
}

/// The descriptor that guest memory holds at `addr`.
pub open spec fn descriptor_at(mem: Seq<u8>, addr: int) -> Result<
    OutputDescriptor,
    ProgramRuntimeError,
> {
    if !in_bounds(mem.len() as int, addr, 1) {
        Err(ProgramRuntimeError::OutOfBounds(addr as u32))
    } else if mem[addr] == TAG_UNBUFFERED {
        if !in_bounds(mem.len() as int, addr, UNBUFFERED_LEN as int) {
            Err(ProgramRuntimeError::OutOfBounds(addr as u32))
        } else {
            Ok(
                OutputDescriptor::Unbuffered {
                    start: mem[addr + 1],
                    end: mem[addr + 2],
                    color: Color { red: mem[addr + 3], green: mem[addr + 4], blue: mem[addr + 5] },
                },
            )
        }
    } else if mem[addr] == TAG_BUFFERED {
        if !in_bounds(mem.len() as int, addr, BUFFERED_LEN as int) {
            Err(ProgramRuntimeError::OutOfBounds(addr as u32))
        } else {
            Ok(
                OutputDescriptor::Buffered {
                    start: mem[addr + 1],
                    end: mem[addr + 2],
                    source_ptr: le_u32_at(mem, addr + 3) as u32,
                },
            )
        }
    } else {
        Err(ProgramRuntimeError::BadDiscriminant(mem[addr]))
    }
}

/// The `count` colours that guest memory holds from `ptr` on, three bytes each.
pub open spec fn colors_at(mem: Seq<u8>, ptr: int, count: int) -> Seq<Color> {
    Seq::new(
        count as nat,
        |i: int|
            Color { red: mem[ptr + 3 * i], green: mem[ptr + 3 * i + 1], blue: mem[ptr + 3 * i + 2] },
    )
}

/// The colour update that a descriptor stands for, given the guest memory it
/// points into.
pub open spec fn translated(mem: Seq<u8>, descriptor: OutputDescriptor) -> Result<
    UpdateView,
    ProgramRuntimeError,
> {
    match descriptor {
        OutputDescriptor::Unbuffered { start, end, color } => {
            let range = LedRange { start, end };
            if !range.valid() {
                Err(ProgramRuntimeError::BadRange(start, end))
            } else {
                Ok(UpdateView { range, colors: solid_colors(range, color), buffered: false })
            }
        },
        OutputDescriptor::Buffered { start, end, source_ptr } => {
            let range = LedRange { start, end };
            if !range.valid() {
                Err(ProgramRuntimeError::BadRange(start, end))
            } else if !in_bounds(mem.len() as int, source_ptr as int, 3 * range.count()) {
                Err(ProgramRuntimeError::OutOfBounds(source_ptr))
            } else {
                Ok(
                    UpdateView {
                        range,
                        colors: colors_at(mem, source_ptr as int, range.count()),
                        buffered: true,
                    },
                )
            }
        },
    }
}

/// The colour update that the descriptor at `addr` stands for.
pub open spec fn output_at(mem: Seq<u8>, addr: int) -> Result<UpdateView, ProgramRuntimeError> {
    match descriptor_at(mem, addr) {
        Ok(descriptor) => translated(mem, descriptor),
        Err(e) => Err(e),
    }
}

/// Reads the output descriptor at `addr`: the variant byte first, then the
/// fields of that variant only.
pub fn decode_descriptor(mem: &[u8], addr: u32) -> (r: Result<
    OutputDescriptor,
    ProgramRuntimeError,
>)
    ensures
        r == descriptor_at(mem@, addr as int),
{
    if !check_bounds(mem, addr, 1) {
        return Err(ProgramRuntimeError::OutOfBounds(addr));
    }
    let at: usize = addr as usize;
    let tag: u8 = mem[at];
    if tag == TAG_UNBUFFERED {
        if !check_bounds(mem, addr, UNBUFFERED_LEN) {
            return Err(ProgramRuntimeError::OutOfBounds(addr));
        }
        Ok(
            OutputDescriptor::Unbuffered {
                start: mem[at + 1],
                end: mem[at + 2],
                color: Color { red: mem[at + 3], green: mem[at + 4], blue: mem[at + 5] },
            },
        )
    } else if tag == TAG_BUFFERED {
        if !check_bounds(mem, addr, BUFFERED_LEN) {
            return Err(ProgramRuntimeError::OutOfBounds(addr));
        }
        Ok(
            OutputDescriptor::Buffered {
                start: mem[at + 1],
                end: mem[at + 2],
                source_ptr: u32_from_le(mem[at + 3], mem[at + 4], mem[at + 5], mem[at + 6]),
            },
        )
    } else {
        Err(ProgramRuntimeError::BadDiscriminant(tag))
    }
}

/// Reads `count` colours from guest memory at `ptr`.
fn read_colors(mem: &[u8], ptr: u32, count: usize) -> (colors: Vec<Color>)
    requires
        count <= LED_COUNT,
        in_bounds(mem@.len() as int, ptr as int, 3 * count),
    ensures
        colors@ == colors_at(mem@, ptr as int, count as int),
{
    let base: usize = ptr as usize;
    let size: usize = mem.len();
    let mut colors: Vec<Color> = Vec::new();
    let mut i: usize = 0;
    while i < count
        invariant
            i <= count <= LED_COUNT,
            base == ptr,
            base + 3 * count <= mem@.len() == size,
            colors@ == colors_at(mem@, ptr as int, i as int),
        decreases count - i,
    {
        let at: usize = base + 3 * i;
        colors.push(Color { red: mem[at], green: mem[at + 1], blue: mem[at + 2] });
        i = i + 1;
        assert(colors@ =~= colors_at(mem@, ptr as int, i as int));
    }
    colors
}

/// Turns a descriptor into a colour update.  The range must be ordered and lie
/// on the strip; a buffered descriptor's colours are read from guest memory.
pub fn translate(mem: &[u8], descriptor: OutputDescriptor) -> (r: Result<
    LedUpdate,
    ProgramRuntimeError,
>)
    ensures
        match r {
            Ok(update) => update.valid() && translated(mem@, descriptor) == Ok::<
                UpdateView,
                ProgramRuntimeError,
            >(update@),
            Err(e) => translated(mem@, descriptor) == Err::<UpdateView, ProgramRuntimeError>(e),
        },
{
    match descriptor {
        OutputDescriptor::Unbuffered { start, end, color } => {
            match LedRange::new(start, end) {
                Some(range) => Ok(LedUpdate::Solid { range, color }),
                None => Err(ProgramRuntimeError::BadRange(start, end)),
            }
        },
        OutputDescriptor::Buffered { start, end, source_ptr } => {
            match LedRange::new(start, end) {
                Some(range) => {
                    let count: usize = range.len();
                    if !check_bounds(mem, source_ptr, 3 * count) {
                        return Err(ProgramRuntimeError::OutOfBounds(source_ptr));
                    }
                    let colors = read_colors(mem, source_ptr, count);
                    Ok(LedUpdate::PerLed { range, colors })
                },
                None => Err(ProgramRuntimeError::BadRange(start, end)),
            }
        },
    }
}

/// Decodes the descriptor at `addr` and turns it into a colour update.
pub fn decode_output(mem: &[u8], addr: u32) -> (r: Result<LedUpdate, ProgramRuntimeError>)
    ensures
        match r {
            Ok(update) => update.valid() && output_at(mem@, addr as int) == Ok::<
                UpdateView,
                ProgramRuntimeError,
            >(update@),
            Err(e) => output_at(mem@, addr as int) == Err::<UpdateView, ProgramRuntimeError>(e),
        },
{
    match decode_descriptor(mem, addr) {
        Ok(descriptor) => translate(mem, descriptor),
        Err(e) => Err(e),
    }
}

/// An unbuffered descriptor over a range of the strip gives its one colour to
/// every LED from `start` to `end`, both included, whatever guest memory
/// holds: the update carries that colour for each `start + i`.
pub proof fn lemma_unbuffered_colors(mem: Seq<u8>, start: u8, end: u8, color: Color)
    requires
        (LedRange { start, end }).valid(),
    ensures
        translated(mem, OutputDescriptor::Unbuffered { start, end, color }) is Ok,
        ({
            let update = translated(mem, OutputDescriptor::Unbuffered { start, end, color })->Ok_0;
            &&& update.range == (LedRange { start, end })
            &&& !update.buffered
            &&& update.colors.len() == end - start + 1
            &&& forall|i: int| 0 <= i <= end - start ==> update.colors[i] == color
        }),
{
}

/// A buffered descriptor over a range of the strip gives the LED at
/// `start + i` the `i`-th triple of the array that it points to.
pub proof fn lemma_buffered_colors(mem: Seq<u8>, start: u8, end: u8, source_ptr: u32)
    requires
        (LedRange { start, end }).valid(),
        in_bounds(mem.len() as int, source_ptr as int, 3 * (end - start + 1)),
    ensures
        translated(mem, OutputDescriptor::Buffered { start, end, source_ptr }) is Ok,
        ({
            let update = translated(mem, OutputDescriptor::Buffered { start, end, source_ptr })->Ok_0;
            &&& update.range == (LedRange { start, end })
            &&& update.buffered
            &&& update.colors.len() == end - start + 1
            &&& forall|i: int|
                0 <= i <= end - start ==> update.colors[i] == (Color {
                    red: mem[source_ptr + 3 * i],
                    green: mem[source_ptr + 3 * i + 1],
                    blue: mem[source_ptr + 3 * i + 2],
                })
        }),
{
}

} // verus!
