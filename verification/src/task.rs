//! The execution task: the loop that runs a loaded program, one tick at a time.
//!
//! The task itself never touches the engine, the hardware or the clock.  Each
//! step takes the outcome of the last piece of outside work and answers with
//! the next piece to do:
//!
//! 1. [`ExecutionTask::begin`] looks at the cancellation flag and asks for a
//!    call of the guest's per-tick export, or releases the context.
//! 2. [`ExecutionTask::on_entry`] decodes the guest's output and asks for the
//!    hardware work.
//! 3. [`ExecutionTask::on_sink`] asks the guest to take a waiting input, or
//!    sleeps out the tick.
//! 4. [`ExecutionTask::on_input`] copies the input into guest memory, then
//!    sleeps out the tick.
//!
//! A trap, an access outside guest memory, a malformed descriptor or a sink
//! failure ends the run.  A step that comes out of turn changes nothing.

use vstd::prelude::*;
use crate::error::{ProgramRuntimeError, SinkError};
use crate::exec::{executed, input_result, ExecView, GuestCall, InputOutcome, WasmExec};
use crate::input::PendingInput;
use crate::output::output_at;
use crate::sink::{sink_request, RequestView, SinkRequest};

verus! {

/// Length of one tick in milliseconds.
pub const TICK_MS: u32 = 10;

/// Why a task ended.
#[derive(Clone, Copy, Debug, PartialEq, Eq, Structural)]
pub enum ExitReason {
    /// The dispatcher asked the task to stop.
    Cancelled,
    /// The program failed.
    Runtime(ProgramRuntimeError),
    /// The hardware did not take an update.
    Sink(SinkError),
}

/// Where in its loop a task stands.
#[derive(Clone, Copy, Debug, PartialEq, Eq, Structural)]
pub enum TaskPhase {
    /// At the top of the loop.
    Ready,
    /// The guest's per-tick export is being called.
    InEntry,
    /// The hardware is taking an update.
    InSink,
    /// The guest is being asked where to put an input.
    InInput,
    /// The task has ended and its context is released.
    Exited(ExitReason),
}

/// The outside work that a task asks for next.
#[derive(Clone, Debug, PartialEq, Eq)]
pub enum TaskAction {
    /// The step came out of turn; there is nothing to do.
    Nothing,
    /// Call the guest's per-tick export, then report with `on_entry`.
    CallEntry,
    /// Do this hardware work, then report with `on_sink`.
    Drive(SinkRequest),
    /// Call the guest's input export with this length, then report with `on_input`.
    CallHandleInput(u32),
    /// Sleep this many milliseconds, then `begin` the next tick.
    Sleep(u32),
    /// Release the context and signal that the task has ended.
    Release(ExitReason),
}

/// A task action over mathematical values.
pub enum TaskActionView {
    Nothing,
    CallEntry,
    Drive(RequestView),
    CallHandleInput(u32),
    Sleep(u32),
    Release(ExitReason),
}

impl View for TaskAction {
    type V = TaskActionView;

    open spec fn view(&self) -> TaskActionView {
        match self {
            TaskAction::Nothing => TaskActionView::Nothing,
            TaskAction::CallEntry => TaskActionView::CallEntry,
            TaskAction::Drive(request) => TaskActionView::Drive(request@),
            TaskAction::CallHandleInput(len) => TaskActionView::CallHandleInput(*len),
            TaskAction::Sleep(ms) => TaskActionView::Sleep(*ms),
            TaskAction::Release(reason) => TaskActionView::Release(*reason),
        }
    }
}

/// A running program: its context, the input slot it empties, and its place
/// in the loop.
#[derive(Clone, Debug, PartialEq, Eq)]
pub struct ExecutionTask {
    pub phase: TaskPhase,
    pub context: WasmExec,
    pub input: PendingInput,
}

/// A task over mathematical values.
pub struct TaskView {
    pub phase: TaskPhase,
    pub context: ExecView,
    pub input: Option<Seq<u8>>,
}

impl View for ExecutionTask {
    type V = TaskView;

    open spec fn view(&self) -> TaskView {
        TaskView { phase: self.phase, context: self.context@, input: self.input@ }
    }
}

/// The task `task` once it has ended for `reason`, and the release it asks for.
pub open spec fn ended(task: TaskView, reason: ExitReason) -> (TaskView, TaskActionView) {
    (TaskView { phase: TaskPhase::Exited(reason), ..task }, TaskActionView::Release(reason))
}

/// The task `task` at the end of a tick, and the sleep it asks for.
pub open spec fn tick_done(task: TaskView) -> (TaskView, TaskActionView) {
    (TaskView { phase: TaskPhase::Ready, ..task }, TaskActionView::Sleep(TICK_MS))
}

/// The top of the loop: a task that was asked to stop ends, any other calls
/// the guest.
pub open spec fn begun(task: TaskView, cancel: bool) -> (TaskView, TaskActionView) {
    if task.phase != TaskPhase::Ready {
        (task, TaskActionView::Nothing)
    } else if cancel {
        ended(task, ExitReason::Cancelled)
    } else {
        (TaskView { phase: TaskPhase::InEntry, ..task }, TaskActionView::CallEntry)
    }
}

/// After the guest's per-tick export came back: its output goes to the sink,
/// and a trap or an output that cannot be decoded ends the run.
pub open spec fn after_entry(task: TaskView, call: GuestCall, mem: Seq<u8>) -> (
    TaskView,
    TaskActionView,
) {
    if task.phase != TaskPhase::InEntry {
        (task, TaskActionView::Nothing)
    } else {
        match call {
            GuestCall::Trapped => ended(task, ExitReason::Runtime(ProgramRuntimeError::Trap)),
            GuestCall::Returned(ret) => match output_at(mem, ret as int) {
                Err(e) => ended(task, ExitReason::Runtime(e)),
                Ok(update) => (
                    TaskView { phase: TaskPhase::InSink, context: executed(task.context, update), ..task },
                    TaskActionView::Drive(sink_request(task.context.leds, update)),
                ),
            },
        }
    }
}

/// After the hardware work: a failure ends the run; otherwise a waiting input
/// is offered to a program that takes input, dropped by one that does not,
/// and the tick is slept out when there is none.
pub open spec fn after_sink(task: TaskView, result: Result<(), SinkError>) -> (
    TaskView,
    TaskActionView,
) {
    if task.phase != TaskPhase::InSink {
        (task, TaskActionView::Nothing)
    } else {
        match result {
            Err(e) => ended(task, ExitReason::Sink(e)),
            Ok(()) => match task.input {
                None => tick_done(task),
                Some(bytes) => if task.context.handles_input {
                    (
                        TaskView { phase: TaskPhase::InInput, ..task },
                        TaskActionView::CallHandleInput(bytes.len() as u32),
                    )
                } else {
                    tick_done(TaskView { input: None, ..task })
                },
            },
        }
    }
}

/// After the guest was asked where to put the input: the task, the action
/// and guest memory.  A refused input leaves guest memory as it was; either
/// way the slot is emptied.  A trap or an address outside guest memory ends
/// the run and writes nothing.
pub open spec fn after_input(task: TaskView, call: GuestCall, mem: Seq<u8>) -> (
    TaskView,
    TaskActionView,
    Seq<u8>,
) {
    if task.phase != TaskPhase::InInput || task.input is None {
        (task, TaskActionView::Nothing, mem)
    } else {
        match call {
            GuestCall::Trapped => {
                let (next, action) = ended(task, ExitReason::Runtime(ProgramRuntimeError::Trap));
                (next, action, mem)
            },
            GuestCall::Returned(ret) => match input_result(mem, ret, task.input->Some_0) {
                Err(e) => {
                    let (next, action) = ended(task, ExitReason::Runtime(e));
                    (next, action, mem)
                },
                Ok((outcome, after)) => {
                    let (next, action) = tick_done(TaskView { input: None, ..task });
                    (next, action, after)
                },
            },
        }
    }
}

impl ExecutionTask {
    /// The context and the input slot are valid.
    pub open spec fn valid(&self) -> bool {
        self.context.valid() && self.input.valid()
    }

    /// Tells whether the task is valid.
    pub fn is_valid(&self) -> (r: bool)
        ensures
            r == self.valid(),
    {
        self.context.is_valid() && self.input.is_valid()
    }

    /// A task at the top of its loop that owns `context`, with an empty input slot.
    pub fn new(context: WasmExec) -> (task: ExecutionTask)
        requires
            context.valid(),
        ensures
            task.valid(),
            task@ == (TaskView { phase: TaskPhase::Ready, context: context@, input: None }),
    {
        ExecutionTask { phase: TaskPhase::Ready, context, input: PendingInput::new() }
    }

    /// Whether the task has ended.
    pub fn has_exited(&self) -> (r: bool)
        ensures
            r == (self.phase is Exited),
    {
        match self.phase {
            TaskPhase::Exited(_) => true,
            _ => false,
        }
    }

    fn end(&mut self, reason: ExitReason) -> (action: TaskAction)
        requires
            old(self).valid(),
        ensures
            final(self).valid(),
            (final(self)@, action@) == ended(old(self)@, reason),
    {
        self.phase = TaskPhase::Exited(reason);
        TaskAction::Release(reason)
    }

    fn finish_tick(&mut self) -> (action: TaskAction)
        requires
            old(self).valid(),
        ensures
            final(self).valid(),
            (final(self)@, action@) == tick_done(old(self)@),
    {
        self.phase = TaskPhase::Ready;
        TaskAction::Sleep(TICK_MS)
    }

    /// Starts a tick, given whether the dispatcher has asked for a stop.
    pub fn begin(&mut self, cancel: bool) -> (action: TaskAction)
        requires
            old(self).valid(),
        ensures
            final(self).valid(),
            (final(self)@, action@) == begun(old(self)@, cancel),
    {
        match self.phase {
            TaskPhase::Ready => {
                if cancel {
                    self.end(ExitReason::Cancelled)
                } else {
                    self.phase = TaskPhase::InEntry;
                    TaskAction::CallEntry
                }
            },
            _ => TaskAction::Nothing,
        }
    }

    /// Takes the outcome of the call of the per-tick export, with the guest's
    /// memory as the call left it.
    pub fn on_entry(&mut self, call: GuestCall, mem: &[u8]) -> (action: TaskAction)
        requires
            old(self).valid(),
        ensures
            final(self).valid(),
            (final(self)@, action@) == after_entry(old(self)@, call, mem@),
            action is Drive ==> action->Drive_0.valid(),
    {
        match self.phase {
            TaskPhase::InEntry => {
                match call {
                    GuestCall::Trapped => self.end(
                        ExitReason::Runtime(ProgramRuntimeError::Trap),
                    ),
                    GuestCall::Returned(ret) => {
                        match self.context.exec(ret, mem) {
                            Ok(request) => {
                                self.phase = TaskPhase::InSink;
                                TaskAction::Drive(request)
                            },
                            Err(e) => self.end(ExitReason::Runtime(e)),
                        }
                    },
                }
            },
            _ => TaskAction::Nothing,
        }
    }

    /// Takes the outcome of the hardware work.
    pub fn on_sink(&mut self, result: Result<(), SinkError>) -> (action: TaskAction)
        requires
            old(self).valid(),
        ensures
            final(self).valid(),
            (final(self)@, action@) == after_sink(old(self)@, result),
    {
        match self.phase {
            TaskPhase::InSink => {
                match result {
                    Err(e) => self.end(ExitReason::Sink(e)),
                    Ok(()) => {
                        match self.input.waiting() {
                            None => self.finish_tick(),
                            Some(len) => {
                                if self.context.handles_input {
                                    self.phase = TaskPhase::InInput;
                                    TaskAction::CallHandleInput(len)
                                } else {
                                    self.input.clear();
                                    self.finish_tick()
                                }
                            },
                        }
                    },
                }
            },
            _ => TaskAction::Nothing,
        }
    }

    /// Takes the outcome of the call of the input export, and writes the
    /// waiting input into the guest's memory where the guest asked for it.
    pub fn on_input(&mut self, call: GuestCall, mem: &mut [u8]) -> (action: TaskAction)
        requires
            old(self).valid(),
        ensures
            final(self).valid(),
            (final(self)@, action@, final(mem)@) == after_input(old(self)@, call, old(mem)@),
    {
        match self.phase {
            TaskPhase::InInput => {
                if !self.input.ready {
                    return TaskAction::Nothing;
                }
                match call {
                    GuestCall::Trapped => self.end(
                        ExitReason::Runtime(ProgramRuntimeError::Trap),
                    ),
                    GuestCall::Returned(ret) => {
                        match self.context.write(ret, mem, self.input.bytes.as_slice()) {
                            Ok(_) => {
                                self.input.clear();
                                self.finish_tick()
                            },
                            Err(e) => self.end(ExitReason::Runtime(e)),
                        }
                    },
                }
            },
            _ => TaskAction::Nothing,
        }
    }
}

/// One whole tick with no input waiting: the task calls the guest, hands the
/// decoded update to the sink, sleeps out the tick, and stands at the top of
/// its loop again with nothing changed but the sink.
pub proof fn lemma_tick_without_input(task: TaskView, ret: u32, mem: Seq<u8>)
    requires
        task.phase == TaskPhase::Ready,
        task.input is None,
        output_at(mem, ret as int) is Ok,
    ensures
        ({
            let update = output_at(mem, ret as int)->Ok_0;
            let (called, first) = begun(task, false);
            let (driven, second) = after_entry(called, GuestCall::Returned(ret), mem);
            let (slept, third) = after_sink(driven, Ok(()));
            &&& first == TaskActionView::CallEntry
            &&& second == TaskActionView::Drive(sink_request(task.context.leds, update))
            &&& third == TaskActionView::Sleep(TICK_MS)
            &&& slept == (TaskView { context: executed(task.context, update), ..task })
        }),
{
}

/// An input that the guest refuses leaves guest memory as it was and empties
/// the slot.
pub proof fn lemma_refused_input(task: TaskView, mem: Seq<u8>)
    requires
        task.phase == TaskPhase::InInput,
        task.input is Some,
    ensures
        after_input(task, GuestCall::Returned(0), mem).2 == mem,
        after_input(task, GuestCall::Returned(0), mem).0.input is None,
        after_input(task, GuestCall::Returned(0), mem).1 == TaskActionView::Sleep(TICK_MS),
{
}

/// Guest memory changes only when an input waits and the guest was asked
/// where to put it.
pub proof fn lemma_memory_changes_only_for_input(task: TaskView, call: GuestCall, mem: Seq<u8>)
    ensures
        after_input(task, call, mem).2 != mem ==> task.phase == TaskPhase::InInput && task.input
            is Some && call is Returned && call->Returned_0 != 0,
        after_input(task, call, mem).2.len() == mem.len(),
{
}

/// The context is released exactly when the task ends: a step asks for the
/// release if and only if it takes the task from a phase of its loop to its
/// end.
pub proof fn lemma_release_marks_exit(
    task: TaskView,
    cancel: bool,
    call: GuestCall,
    result: Result<(), SinkError>,
    mem: Seq<u8>,
)
    ensures
        begun(task, cancel).1 is Release <==> !(task.phase is Exited) && begun(
            task,
            cancel,
        ).0.phase is Exited,
        after_entry(task, call, mem).1 is Release <==> !(task.phase is Exited) && after_entry(
            task,
            call,
            mem,
        ).0.phase is Exited,
        after_sink(task, result).1 is Release <==> !(task.phase is Exited) && after_sink(
            task,
            result,
        ).0.phase is Exited,
        after_input(task, call, mem).1 is Release <==> !(task.phase is Exited) && after_input(
            task,
            call,
            mem,
        ).0.phase is Exited,
{
}

/// A task that has ended stays ended: every later step changes nothing and
/// asks for nothing.
pub proof fn lemma_exited_is_final(
    task: TaskView,
    cancel: bool,
    call: GuestCall,
    result: Result<(), SinkError>,
    mem: Seq<u8>,
)
    requires
        task.phase is Exited,
    ensures
        begun(task, cancel) == (task, TaskActionView::Nothing),
        after_entry(task, call, mem) == (task, TaskActionView::Nothing),
        after_sink(task, result) == (task, TaskActionView::Nothing),
        after_input(task, call, mem) == (task, TaskActionView::Nothing, mem),
{
}

} // verus!
