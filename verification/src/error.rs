//! Why a program fails to load or to keep running, and why a sink fails.

use vstd::prelude::*;

verus! {

/// Why a module did not become a running program.  The load is abandoned and
/// no task is started.
#[derive(Clone, Copy, Debug, PartialEq, Eq, Structural)]
pub enum ProgramLoadError {
    /// The bytes are not a module that the engine can parse.
    Parse,
    /// The module parsed but could not be instantiated.
    Instantiate,
    /// The module does not export the per-tick function.
    MissingEntry,
}

/// Why a running program was ended.  Fatal to the run, not to the controller.
#[derive(Clone, Copy, Debug, PartialEq, Eq, Structural)]
pub enum ProgramRuntimeError {
    /// A call into the guest trapped.
    Trap,
    /// An access at this guest address reaches outside guest memory.
    OutOfBounds(u32),
    /// The output descriptor starts with a byte that names no variant.
    BadDiscriminant(u8),
    /// The output descriptor names LEDs `start..=end`, which is not a range of the strip.
    BadRange(u8, u8),
}

/// Why a hardware sink did not take an update.
#[derive(Clone, Copy, Debug, PartialEq, Eq, Structural)]
pub enum SinkError {
    /// The secondary controller did not acknowledge the transaction.
    BusNack,
    /// The bus transaction did not finish within its timeout.
    BusTimeout,
    /// The attached strip's driver reported a failure.
    Driver,
}

} // verus!
