//! The dispatcher: the controller loop that takes commands and keeps at most
//! one execution task alive.
//!
//! The dispatcher itself reads no socket and starts no task.  Each step takes
//! a command, the observed exit of the task, or the outcome of a load, and
//! answers with the one piece of outside work to do next.  A program that
//! runs is always stopped, and its exit observed, before anything takes its
//! place.

use vstd::prelude::*;
use crate::command::{parse_command, parsed, Command, CommandView, ProtocolError};
use crate::error::ProgramLoadError;
use crate::frame::{CommandFrame, FrameView};
use crate::exec::{initialized, load_result, ExecView, LoadOutcome, WasmExec};
use crate::led::{solid_colors, Color, LedRange, LedUpdate, UpdateView, LED_COUNT};
use crate::sink::{
    fresh_sink, sink_request, HardwareSink, RequestView, SinkKind, SinkRequest,
};

verus! {

/// Whether a program runs.
#[derive(Clone, Copy, Debug, PartialEq, Eq, Structural)]
pub enum ExecutionState {
    Idle,
    Running,
}

/// What a command that had to stop the running program still wants done once
/// the task has exited.
#[derive(Clone, Debug, PartialEq, Eq)]
pub enum Deferred {
    /// Nothing more: the command was a stop.
    Nothing,
    /// Set the whole strip to this colour.
    Solid(Color),
    /// Load this module.
    Load(Vec<u8>),
}

/// Deferred work over mathematical bytes.
pub enum DeferredView {
    Nothing,
    Solid(Color),
    Load(Seq<u8>),
}

impl View for Deferred {
    type V = DeferredView;

    open spec fn view(&self) -> DeferredView {
        match self {
            Deferred::Nothing => DeferredView::Nothing,
            Deferred::Solid(color) => DeferredView::Solid(*color),
            Deferred::Load(module) => DeferredView::Load(module@),
        }
    }
}

/// Where the dispatcher stands.
#[derive(Clone, Debug, PartialEq, Eq)]
pub enum DispatchState {
    /// No task is alive.
    Idle,
    /// A task is alive and was not asked to stop.
    Running,
    /// A task is alive and was asked to stop; its exit has not been observed.
    Stopping(Deferred),
    /// No task is alive; the engine is loading a module.
    Loading,
}

/// A dispatcher state over mathematical bytes.
pub enum StateView {
    Idle,
    Running,
    Stopping(DeferredView),
    Loading,
}

impl View for DispatchState {
    type V = StateView;

    open spec fn view(&self) -> StateView {
        match self {
            DispatchState::Idle => StateView::Idle,
            DispatchState::Running => StateView::Running,
            DispatchState::Stopping(deferred) => StateView::Stopping(deferred@),
            DispatchState::Loading => StateView::Loading,
        }
    }
}

/// The outside work that the dispatcher asks for next.
#[derive(Clone, Debug, PartialEq, Eq)]
pub enum DispatchAction {
    /// Nothing to do.
    Nothing,
    /// The command does not apply where the dispatcher stands and was dropped.
    Ignored,
    /// Set the cancellation flag, wait until the task's exit is observed,
    /// then report with `on_task_exit`.
    RequestStop,
    /// Do this hardware work.
    Drive(SinkRequest),
    /// Parse and instantiate this module and resolve its exports, then report
    /// with `on_loaded`.
    Instantiate(Vec<u8>),
    /// Start a task and hand it this context.
    Spawn(WasmExec),
    /// Offer these bytes to the running task's input slot.
    Enqueue(Vec<u8>),
    /// The load failed; no task was started.
    LoadFailed(ProgramLoadError),
}

/// A dispatcher action over mathematical values.
pub enum ActionView {
    Nothing,
    Ignored,
    RequestStop,
    Drive(RequestView),
    Instantiate(Seq<u8>),
    Spawn(ExecView),
    Enqueue(Seq<u8>),
    LoadFailed(ProgramLoadError),
}

impl View for DispatchAction {
    type V = ActionView;

    open spec fn view(&self) -> ActionView {
        match self {
            DispatchAction::Nothing => ActionView::Nothing,
            DispatchAction::Ignored => ActionView::Ignored,
            DispatchAction::RequestStop => ActionView::RequestStop,
            DispatchAction::Drive(request) => ActionView::Drive(request@),
            DispatchAction::Instantiate(module) => ActionView::Instantiate(module@),
            DispatchAction::Spawn(context) => ActionView::Spawn(context@),
            DispatchAction::Enqueue(input) => ActionView::Enqueue(input@),
            DispatchAction::LoadFailed(e) => ActionView::LoadFailed(*e),
        }
    }
}

impl DispatchAction {
    /// Hardware work and contexts that the action carries are valid.
    pub open spec fn valid(&self) -> bool {
        match self {
            DispatchAction::Drive(request) => request.valid(),
            DispatchAction::Spawn(context) => context.valid(),
            _ => true,
        }
    }
}

/// The update that sets the whole strip to `color`.
pub open spec fn whole_update(color: Color) -> UpdateView {
    let range = LedRange { start: 0, end: (LED_COUNT - 1) as u8 };
    UpdateView { range, colors: solid_colors(range, color), buffered: false }
}

/// The hardware work that sets the whole strip to `color` through a sink of
/// the given kind.
pub open spec fn solid_request(kind: SinkKind, color: Color) -> RequestView {
    sink_request(fresh_sink(kind), whole_update(color))
}

/// The context that a newly loaded module runs in.
pub open spec fn fresh_context(kind: SinkKind, module: Seq<u8>, handles_input: bool) -> ExecView {
    initialized(
        ExecView { module: Seq::empty(), loaded: false, handles_input: false, leds: fresh_sink(kind) },
        module,
        handles_input,
    )
}

/// Whether a task is alive in `state`.
pub open spec fn task_alive(state: StateView) -> bool {
    state is Running || state is Stopping
}

/// The step on a command.  A program that runs is asked to stop before a
/// colour is set or another program is loaded; input reaches only a program
/// that runs; while the dispatcher waits for an exit or a load, commands are
/// dropped.
pub open spec fn command_step(state: StateView, kind: SinkKind, command: CommandView) -> (
    StateView,
    ActionView,
) {
    match state {
        StateView::Idle => match command {
            CommandView::SetSolidColor(color) => (
                StateView::Idle,
                ActionView::Drive(solid_request(kind, color)),
            ),
            CommandView::LoadProgram(module) => (StateView::Loading, ActionView::Instantiate(module)),
            CommandView::Stop => (StateView::Idle, ActionView::Nothing),
            CommandView::FeedInput(_) => (StateView::Idle, ActionView::Ignored),
        },
        StateView::Running => match command {
            CommandView::SetSolidColor(color) => (
                StateView::Stopping(DeferredView::Solid(color)),
                ActionView::RequestStop,
            ),
            CommandView::LoadProgram(module) => (
                StateView::Stopping(DeferredView::Load(module)),
                ActionView::RequestStop,
            ),
            CommandView::Stop => (StateView::Stopping(DeferredView::Nothing), ActionView::RequestStop),
            CommandView::FeedInput(input) => (StateView::Running, ActionView::Enqueue(input)),
        },
        StateView::Stopping(_) => (state, ActionView::Ignored),
        StateView::Loading => (state, ActionView::Ignored),
    }
}

/// The step on a frame: the step on the command that it carries.  A frame
/// that carries none is dropped and changes nothing.
pub open spec fn frame_step(state: StateView, kind: SinkKind, frame: FrameView) -> Result<
    (StateView, ActionView),
    ProtocolError,
> {
    match parsed(frame) {
        Ok(command) => Ok(command_step(state, kind, command)),
        Err(e) => Err(e),
    }
}

/// The step on the observed exit of the task: the dispatcher goes on with
/// what the stopping command still wanted.
pub open spec fn exit_step(state: StateView, kind: SinkKind) -> (StateView, ActionView) {
    match state {
        StateView::Running => (StateView::Idle, ActionView::Nothing),
        StateView::Stopping(deferred) => match deferred {
            DeferredView::Nothing => (StateView::Idle, ActionView::Nothing),
            DeferredView::Solid(color) => (
                StateView::Idle,
                ActionView::Drive(solid_request(kind, color)),
            ),
            DeferredView::Load(module) => (StateView::Loading, ActionView::Instantiate(module)),
        },
        StateView::Idle => (state, ActionView::Nothing),
        StateView::Loading => (state, ActionView::Nothing),
    }
}

/// The step on the outcome of a load: a module that loaded is handed to a
/// new task, one that did not leaves the dispatcher idle.
pub open spec fn loaded_step(
    state: StateView,
    kind: SinkKind,
    module: Seq<u8>,
    outcome: LoadOutcome,
) -> (StateView, ActionView) {
    match state {
        StateView::Loading => match load_result(outcome) {
            Ok(handles_input) => (
                StateView::Running,
                ActionView::Spawn(fresh_context(kind, module, handles_input)),
            ),
            Err(e) => (StateView::Idle, ActionView::LoadFailed(e)),
        },
        _ => (state, ActionView::Ignored),
    }
}

/// The controller loop's state: where it stands, and the kind of sink that
/// the deployment uses.
#[derive(Clone, Debug, PartialEq, Eq)]
pub struct Dispatcher {
    pub state: DispatchState,
    pub kind: SinkKind,
}

impl Dispatcher {
    /// An idle dispatcher for a deployment with the given kind of sink.
    pub fn new(kind: SinkKind) -> (dispatcher: Dispatcher)
        ensures
            dispatcher.state@ == StateView::Idle,
            dispatcher.kind == kind,
    {
        Dispatcher { state: DispatchState::Idle, kind }
    }

    /// Whether a program runs.  It does from the start of its task until the
    /// task's exit has been observed.
    pub fn execution_state(&self) -> (r: ExecutionState)
        ensures
            r == if task_alive(self.state@) {
                ExecutionState::Running
            } else {
                ExecutionState::Idle
            },
    {
        match &self.state {
            DispatchState::Running => ExecutionState::Running,
            DispatchState::Stopping(_) => ExecutionState::Running,
            _ => ExecutionState::Idle,
        }
    }

    fn take_state(&mut self) -> (state: DispatchState)
        ensures
            state == old(self).state,
            final(self).state@ == StateView::Idle,
            final(self).kind == old(self).kind,
    {
        let mut state = DispatchState::Idle;
        core::mem::swap(&mut self.state, &mut state);
        state
    }

    fn solid(&self, color: Color) -> (action: DispatchAction)
        ensures
            action@ == ActionView::Drive(solid_request(self.kind, color)),
            action.valid(),
    {
        let mut sink = HardwareSink::new(self.kind);
        let update = LedUpdate::whole_strip(color);
        DispatchAction::Drive(sink.apply(&update))
    }

    /// Takes a command.
    pub fn on_command(&mut self, command: Command) -> (action: DispatchAction)
        ensures
            (final(self).state@, action@) == command_step(old(self).state@, old(self).kind, command@),
            final(self).kind == old(self).kind,
            action.valid(),
    {
        match self.take_state() {
            DispatchState::Idle => match command {
                Command::SetSolidColor(color) => self.solid(color),
                Command::LoadProgram(module) => {
                    self.state = DispatchState::Loading;
                    DispatchAction::Instantiate(module)
                },
                Command::Stop => DispatchAction::Nothing,
                Command::FeedInput(_) => DispatchAction::Ignored,
            },
            DispatchState::Running => match command {
                Command::SetSolidColor(color) => {
                    self.state = DispatchState::Stopping(Deferred::Solid(color));
                    DispatchAction::RequestStop
                },
                Command::LoadProgram(module) => {
                    self.state = DispatchState::Stopping(Deferred::Load(module));
                    DispatchAction::RequestStop
                },
                Command::Stop => {
                    self.state = DispatchState::Stopping(Deferred::Nothing);
                    DispatchAction::RequestStop
                },
                Command::FeedInput(input) => {
                    self.state = DispatchState::Running;
                    DispatchAction::Enqueue(input)
                },
            },
            state => {
                self.state = state;
                DispatchAction::Ignored
            },
        }
    }

    /// Takes a frame: reads the command that it carries and takes that.
    pub fn on_frame(&mut self, frame: CommandFrame) -> (r: Result<DispatchAction, ProtocolError>)
        ensures
            match frame_step(old(self).state@, old(self).kind, frame@) {
                Ok((next, action)) => r is Ok && r->Ok_0@ == action && r->Ok_0.valid() && final(self).state@ == next,
                Err(e) => r == Err::<DispatchAction, ProtocolError>(e) && final(self).state@ == old(self).state@,
            },
            final(self).kind == old(self).kind,
    {
        match parse_command(frame) {
            Ok(command) => Ok(self.on_command(command)),
            Err(e) => Err(e),
        }
    }

    /// Takes the observed exit of the task.
    pub fn on_task_exit(&mut self) -> (action: DispatchAction)
        ensures
            (final(self).state@, action@) == exit_step(old(self).state@, old(self).kind),
            final(self).kind == old(self).kind,
            action.valid(),
    {
        match self.take_state() {
            DispatchState::Running => DispatchAction::Nothing,
            DispatchState::Stopping(deferred) => match deferred {
                Deferred::Nothing => DispatchAction::Nothing,
                Deferred::Solid(color) => self.solid(color),
                Deferred::Load(module) => {
                    self.state = DispatchState::Loading;
                    DispatchAction::Instantiate(module)
                },
            },
            state => {
                self.state = state;
                DispatchAction::Nothing
            },
        }
    }

    /// Takes the outcome of a load, with the module that was loaded.
    pub fn on_loaded(&mut self, module: Vec<u8>, outcome: LoadOutcome) -> (action: DispatchAction)
        ensures
            (final(self).state@, action@) == loaded_step(
                old(self).state@,
                old(self).kind,
                module@,
                outcome,
            ),
            final(self).kind == old(self).kind,
            action.valid(),
    {
        match self.take_state() {
            DispatchState::Loading => {
                let mut context = WasmExec::with_sink(HardwareSink::new(self.kind));
                match context.init(module, outcome) {
                    Ok(()) => {
                        self.state = DispatchState::Running;
                        DispatchAction::Spawn(context)
                    },
                    Err(e) => DispatchAction::LoadFailed(e),
                }
            },
            state => {
                self.state = state;
                DispatchAction::Ignored
            },
        }
    }
}

/// What can happen to a dispatcher.
pub enum DispatchEvent {
    /// A command arrived.
    Command(CommandView),
    /// The task's exit was observed.
    TaskExited,
    /// The engine finished with this module, with this outcome.
    Loaded(Seq<u8>, LoadOutcome),
}

/// The step on any event.
pub open spec fn step(state: StateView, kind: SinkKind, event: DispatchEvent) -> (
    StateView,
    ActionView,
) {
    match event {
        DispatchEvent::Command(command) => command_step(state, kind, command),
        DispatchEvent::TaskExited => exit_step(state, kind),
        DispatchEvent::Loaded(module, outcome) => loaded_step(state, kind, module, outcome),
    }
}

/// Number of tasks that `state` takes to be alive.
pub open spec fn tasks_of(state: StateView) -> int {
    if task_alive(state) {
        1
    } else {
        0
    }
}

/// Number of tasks alive after a step, given the number before it: an
/// observed exit means one task less, a spawn one more.
pub open spec fn live_after(live: int, event: DispatchEvent, action: ActionView) -> int {
    live - (if event is TaskExited {
        1int
    } else {
        0int
    }) + (if action is Spawn {
        1int
    } else {
        0int
    })
}

/// Where a dispatcher that started idle stands after `events`, and how many
/// tasks are then alive.  There is no such history when an exit is observed
/// while no task is alive.
pub open spec fn history(kind: SinkKind, events: Seq<DispatchEvent>) -> Option<(StateView, int)>
    decreases events.len(),
{
    if events.len() == 0 {
        Some((StateView::Idle, 0int))
    } else {
        match history(kind, events.drop_last()) {
            None => None,
            Some((state, live)) => {
                if events.last() is TaskExited && live < 1 {
                    None
                } else {
                    let (next, action) = step(state, kind, events.last());
                    Some((next, live_after(live, events.last(), action)))
                }
            },
        }
    }
}

/// One step keeps the dispatcher's state in line with the tasks that are
/// alive, and a task is spawned only while none is alive.
pub proof fn lemma_step_keeps_one_task(state: StateView, kind: SinkKind, event: DispatchEvent)
    requires
        event is TaskExited ==> task_alive(state),
    ensures
        live_after(tasks_of(state), event, step(state, kind, event).1) == tasks_of(
            step(state, kind, event).0,
        ),
        step(state, kind, event).1 is Spawn ==> !task_alive(state),
{
}

/// At most one execution task is ever alive: whatever commands, exits and
/// load outcomes reach a dispatcher that started idle, the number of live
/// tasks is one while it takes a program to run and zero otherwise.
pub proof fn lemma_at_most_one_task(kind: SinkKind, events: Seq<DispatchEvent>)
    requires
        history(kind, events) is Some,
    ensures
        history(kind, events)->Some_0.1 == tasks_of(history(kind, events)->Some_0.0),
        0 <= history(kind, events)->Some_0.1 <= 1,
    decreases events.len(),
{
    if events.len() > 0 {
        lemma_at_most_one_task(kind, events.drop_last());
        let (state, live) = history(kind, events.drop_last())->Some_0;
        lemma_step_keeps_one_task(state, kind, events.last());
    }
}

/// Loading a program while another runs first stops the one that runs: the
/// command only asks for the stop, the new module goes to the engine once the
/// old task's exit was observed, and the new task is spawned after that.
pub proof fn lemma_reload_stops_first(kind: SinkKind, module: Seq<u8>, outcome: LoadOutcome)
    requires
        load_result(outcome) is Ok,
    ensures
        command_step(StateView::Running, kind, CommandView::LoadProgram(module)) == (
            StateView::Stopping(DeferredView::Load(module)),
            ActionView::RequestStop,
        ),
        exit_step(StateView::Stopping(DeferredView::Load(module)), kind) == (
            StateView::Loading,
            ActionView::Instantiate(module),
        ),
        loaded_step(StateView::Loading, kind, module, outcome) == (
            StateView::Running,
            ActionView::Spawn(fresh_context(kind, module, load_result(outcome)->Ok_0)),
        ),
{
}

/// Two loads with no stop between them leave exactly one program running:
/// the second module takes the place of the first once the first task's exit
/// was observed, and not before.
pub proof fn lemma_two_loads_one_program(
    kind: SinkKind,
    first: Seq<u8>,
    second: Seq<u8>,
    first_outcome: LoadOutcome,
    second_outcome: LoadOutcome,
)
    requires
        load_result(first_outcome) is Ok,
        load_result(second_outcome) is Ok,
    ensures
        history(
            kind,
            seq![
                DispatchEvent::Command(CommandView::LoadProgram(first)),
                DispatchEvent::Loaded(first, first_outcome),
                DispatchEvent::Command(CommandView::LoadProgram(second)),
            ],
        ) == Some((StateView::Stopping(DeferredView::Load(second)), 1int)),
        history(
            kind,
            seq![
                DispatchEvent::Command(CommandView::LoadProgram(first)),
                DispatchEvent::Loaded(first, first_outcome),
                DispatchEvent::Command(CommandView::LoadProgram(second)),
                DispatchEvent::TaskExited,
            ],
        ) == Some((StateView::Loading, 0int)),
        history(
            kind,
            seq![
                DispatchEvent::Command(CommandView::LoadProgram(first)),
                DispatchEvent::Loaded(first, first_outcome),
                DispatchEvent::Command(CommandView::LoadProgram(second)),
                DispatchEvent::TaskExited,
                DispatchEvent::Loaded(second, second_outcome),
            ],
        ) == Some((StateView::Running, 1int)),
{
    let e1 = DispatchEvent::Command(CommandView::LoadProgram(first));
    let e2 = DispatchEvent::Loaded(first, first_outcome);
    let e3 = DispatchEvent::Command(CommandView::LoadProgram(second));
    let e4 = DispatchEvent::TaskExited;
    let e5 = DispatchEvent::Loaded(second, second_outcome);
    let t0 = Seq::<DispatchEvent>::empty();
    let t1 = seq![e1];
    let t2 = seq![e1, e2];
    let t3 = seq![e1, e2, e3];
    let t4 = seq![e1, e2, e3, e4];
    let t5 = seq![e1, e2, e3, e4, e5];
    assert(t1.drop_last() =~= t0);
    assert(t2.drop_last() =~= t1);
    assert(t3.drop_last() =~= t2);
    assert(t4.drop_last() =~= t3);
    assert(t5.drop_last() =~= t4);
    assert(history(kind, t0) == Some((StateView::Idle, 0int)));
    assert(history(kind, t1) == Some((StateView::Loading, 0int)));
    assert(history(kind, t2) == Some((StateView::Running, 1int)));
    assert(history(kind, t3) == Some((StateView::Stopping(DeferredView::Load(second)), 1int)));
    assert(history(kind, t4) == Some((StateView::Loading, 0int)));
    assert(history(kind, t5) == Some((StateView::Running, 1int)));
}

/// A load that fails leaves the dispatcher idle and spawns no task.
pub proof fn lemma_failed_load_stays_idle(kind: SinkKind, module: Seq<u8>, outcome: LoadOutcome)
    requires
        load_result(outcome) is Err,
    ensures
        loaded_step(StateView::Loading, kind, module, outcome) == (
            StateView::Idle,
            ActionView::LoadFailed(load_result(outcome)->Err_0),
        ),
{
}

/// Input is handed on only to a program that runs; while idle it is dropped
/// and the dispatcher stays idle.
pub proof fn lemma_input_needs_running_task(state: StateView, kind: SinkKind, command: CommandView)
    ensures
        command_step(state, kind, command).1 is Enqueue ==> state is Running && command
            is FeedInput,
        command is FeedInput ==> command_step(StateView::Idle, kind, command) == (
            StateView::Idle,
            ActionView::Ignored,
        ),
{
}

/// A stop while idle changes nothing and starts nothing.
pub proof fn lemma_stop_while_idle(kind: SinkKind)
    ensures
        command_step(StateView::Idle, kind, CommandView::Stop) == (
            StateView::Idle,
            ActionView::Nothing,
        ),
{
}

} // verus!
