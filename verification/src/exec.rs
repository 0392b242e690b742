//! The execution context of one loaded program.

use vstd::prelude::*;
use crate::error::{ProgramLoadError, ProgramRuntimeError};
use crate::led::UpdateView;
use crate::memory::{in_bounds, write_bytes, written};
use crate::output::{decode_output, output_at};
use crate::sink::{
    dark_frame, sink_after, sink_request, HardwareSink, LocalStripSink, SinkRequest, SinkView,
};

verus! {

/// What the engine found when it was given a module.
#[derive(Clone, Copy, Debug, PartialEq, Eq, Structural)]
pub enum LoadOutcome {
    /// The bytes did not parse as a module.
    ParseFailed,
    /// The module parsed but could not be instantiated.
    InstantiateFailed,
    /// The module was instantiated; the flags tell which of the two exports it has.
    Resolved { entry: bool, handle_input: bool },
}

/// How a call of one of the guest's exports ended.
#[derive(Clone, Copy, Debug, PartialEq, Eq, Structural)]
pub enum GuestCall {
    /// The call returned this value.
    Returned(u32),
    /// The call trapped.
    Trapped,
}

/// What became of an input that was offered to the guest.
#[derive(Clone, Copy, Debug, PartialEq, Eq, Structural)]
pub enum InputOutcome {
    /// The guest refused the input; its memory was not touched.
    Rejected,
    /// The input was copied into guest memory.
    Delivered,
}

/// Whether a load succeeds, and if so whether the program takes input.
pub open spec fn load_result(outcome: LoadOutcome) -> Result<bool, ProgramLoadError> {
    match outcome {
        LoadOutcome::ParseFailed => Err(ProgramLoadError::Parse),
        LoadOutcome::InstantiateFailed => Err(ProgramLoadError::Instantiate),
        LoadOutcome::Resolved { entry, handle_input } => if entry {
            Ok(handle_input)
        } else {
            Err(ProgramLoadError::MissingEntry)
        },
    }
}

/// What an input does to guest memory, given the address that the guest
/// returned for it: the address zero refuses the input.
pub open spec fn input_result(mem: Seq<u8>, ret: u32, data: Seq<u8>) -> Result<
    (InputOutcome, Seq<u8>),
    ProgramRuntimeError,
> {
    if ret == 0 {
        Ok((InputOutcome::Rejected, mem))
    } else if in_bounds(mem.len() as int, ret as int, data.len() as int) {
        Ok((InputOutcome::Delivered, written(mem, ret as int, data)))
    } else {
        Err(ProgramRuntimeError::OutOfBounds(ret))
    }
}

/// One loaded program: its bytes, which exports it has, and the sink that its
/// colour updates go to.
#[derive(Clone, Debug, PartialEq, Eq)]
pub struct WasmExec {
    /// The module's bytes, owned by the context.
    pub module: Vec<u8>,
    /// Whether a module with the per-tick export was loaded.
    pub loaded: bool,
    /// Whether the module exports the function that takes input.
    pub handles_input: bool,
    /// Where colour updates go.
    pub leds: HardwareSink,
}

/// An execution context over mathematical values.
pub struct ExecView {
    pub module: Seq<u8>,
    pub loaded: bool,
    pub handles_input: bool,
    pub leds: SinkView,
}

impl View for WasmExec {
    type V = ExecView;

    open spec fn view(&self) -> ExecView {
        ExecView {
            module: self.module@,
            loaded: self.loaded,
            handles_input: self.handles_input,
            leds: self.leds@,
        }
    }
}

/// The context `exec` once `module` was loaded into it and found to take
/// input or not.
pub open spec fn initialized(exec: ExecView, module: Seq<u8>, handles_input: bool) -> ExecView {
    ExecView { module, loaded: true, handles_input, leds: exec.leds }
}

/// The context `exec` after its sink took `update`.
pub open spec fn executed(exec: ExecView, update: UpdateView) -> ExecView {
    ExecView { leds: sink_after(exec.leds, update), ..exec }
}

impl WasmExec {
    /// The sink is valid.
    pub open spec fn valid(&self) -> bool {
        self.leds.valid()
    }

    /// Tells whether the context is valid.
    pub fn is_valid(&self) -> (r: bool)
        ensures
            r == self.valid(),
    {
        self.leds.is_valid()
    }

    /// A context with no program, whose updates go to an attached strip with
    /// every LED dark.
    pub fn new() -> (exec: WasmExec)
        ensures
            exec.valid(),
            exec.module@.len() == 0,
            !exec.loaded,
            !exec.handles_input,
            exec.leds@ == SinkView::LocalStrip(dark_frame()),
    {
        WasmExec::with_sink(HardwareSink::LocalStrip(LocalStripSink::new()))
    }

    /// A context with no program, whose updates go to `leds`.
    pub fn with_sink(leds: HardwareSink) -> (exec: WasmExec)
        requires
            leds.valid(),
        ensures
            exec.valid(),
            exec.module@.len() == 0,
            !exec.loaded,
            !exec.handles_input,
            exec.leds == leds,
    {
        WasmExec { module: Vec::new(), loaded: false, handles_input: false, leds }
    }

    /// Takes a module into the context, given what the engine found in it.
    /// The module must have parsed, been instantiated and export the per-tick
    /// function; the function that takes input may be missing.  When the load
    /// fails the context stays as it was.
    pub fn init(&mut self, module: Vec<u8>, outcome: LoadOutcome) -> (r: Result<
        (),
        ProgramLoadError,
    >)
        ensures
            match load_result(outcome) {
                Ok(handles_input) => r == Ok::<(), ProgramLoadError>(()) && final(self)@
                    == initialized(old(self)@, module@, handles_input),
                Err(e) => r == Err::<(), ProgramLoadError>(e) && final(self)@ == old(self)@,
            },
            final(self).leds == old(self).leds,
    {
        match outcome {
            LoadOutcome::ParseFailed => Err(ProgramLoadError::Parse),
            LoadOutcome::InstantiateFailed => Err(ProgramLoadError::Instantiate),
            LoadOutcome::Resolved { entry, handle_input } => {
                if !entry {
                    return Err(ProgramLoadError::MissingEntry);
                }
                self.module = module;
                self.loaded = true;
                self.handles_input = handle_input;
                Ok(())
            },
        }
    }

    /// One tick's output: decodes the descriptor that the guest left at `ret`,
    /// turns it into a colour update and hands that to the sink.  The result
    /// is the hardware work to do.  When the descriptor cannot be decoded the
    /// context stays as it was.
    pub fn exec(&mut self, ret: u32, mem: &[u8]) -> (r: Result<SinkRequest, ProgramRuntimeError>)
        requires
            old(self).valid(),
        ensures
            final(self).valid(),
            match output_at(mem@, ret as int) {
                Ok(update) => r is Ok && r->Ok_0@ == sink_request(old(self)@.leds, update)
                    && r->Ok_0.valid() && final(self)@ == executed(old(self)@, update),
                Err(e) => r == Err::<SinkRequest, ProgramRuntimeError>(e) && final(self)@ == old(self)@,
            },
    {
        match decode_output(mem, ret) {
            Ok(update) => Ok(self.leds.apply(&update)),
            Err(e) => Err(e),
        }
    }

    /// Delivers `data` to the guest, given the address `ret` that the guest
    /// returned when it was told the length.  The address zero refuses the
    /// input and guest memory stays untouched; any other address receives
    /// exactly the bytes of `data`.
    pub fn write(&self, ret: u32, mem: &mut [u8], data: &[u8]) -> (r: Result<
        InputOutcome,
        ProgramRuntimeError,
    >)
        ensures
            match input_result(old(mem)@, ret, data@) {
                Ok((outcome, after)) => r == Ok::<InputOutcome, ProgramRuntimeError>(outcome)
                    && final(mem)@ == after,
                Err(e) => r == Err::<InputOutcome, ProgramRuntimeError>(e) && final(mem)@ == old(mem)@,
            },
    {
        if ret == 0 {
            return Ok(InputOutcome::Rejected);
        }
        match write_bytes(mem, ret, data) {
            Ok(()) => Ok(InputOutcome::Delivered),
            Err(e) => Err(e),
        }
    }
}

} // verus!
