//! The frame loop as a state machine. The program around the library feeds it
//! one event at a time and performs the action it answers with; nothing here
//! touches a window, a device or the UI toolkit.

use vstd::prelude::*;
use crate::device::BACKGROUND_COLOR;
use crate::device::DeviceCommand;
use crate::device::DeviceContext;
use crate::device::closing_commands;
use crate::device::opening_commands;
use crate::ui::UiFlags;
use crate::ui::UiInput;
use crate::ui::flags_after_frame;

verus! {

/// Where the loop stands.
#[derive(Clone, Copy, Debug, PartialEq, Eq)]
pub enum Phase {
    /// Window, device and UI are being created; no frame is rendered yet.
    Initializing,
    /// Events are handled and frames are rendered.
    Running,
    /// Terminal: the loop has stopped, or stops with the event at hand.
    Exiting,
}

/// What happened during one rendered frame.
#[derive(Clone, Copy, Debug, PartialEq, Eq)]
pub struct FrameInput {
    /// Whether the Escape key went down during the frame.
    pub escape_pressed: bool,
    /// What the user did to the interface.
    pub ui: UiInput,
}

/// What the platform, or the program after a rendered frame, reports to the
/// loop.
#[derive(Clone, Copy, Debug, PartialEq, Eq)]
pub enum LoopEvent {
    /// A new batch of platform events begins. `now` is the reading of a
    /// monotonic clock, in microseconds.
    NewEvents { now: u64 },
    /// The batch has been handed over completely.
    EventsDrained,
    /// The window asks to be drawn.
    RedrawRequested,
    /// The frame asked for by the last `Render` action has been presented.
    FrameRendered(FrameInput),
    /// The user asked to close the main window.
    CloseRequested,
    /// Any other window, keyboard or pointer event.
    Other,
}

/// What the program has to do in answer to an event.
#[derive(Clone, Copy, Debug, PartialEq, Eq)]
pub enum Action {
    /// Nothing.
    Idle,
    /// Tell the UI how much time passed since the last batch of events, in
    /// microseconds.
    AdvanceClock { elapsed: u64 },
    /// Push input and timing into the UI and ask the window for a redraw.
    PrepareFrame,
    /// Render and present one frame, then report `FrameRendered`.
    Render,
    /// Hand the event to the UI's input model.
    Forward,
    /// Leave the loop and release everything.
    Stop,
}

/// One step of bringing the application up.
#[derive(Clone, Copy, Debug, PartialEq, Eq)]
pub enum StartupStep {
    CreateWindow,
    CreateDevice,
    CreateUiContext,
    AttachPlatform,
    CreateRenderer,
    RegisterFonts,
    ComputeScale,
}

/// One step of rendering a frame.
#[derive(Clone, Copy, Debug, PartialEq, Eq)]
pub enum FrameStep {
    /// A call on the rendering device.
    Device(DeviceCommand),
    /// Begin the UI's frame; the description is valid from here on.
    NewUiFrame,
    /// Declare the menu bar and the windows.
    DescribeUi,
    /// Finalize the UI's frame into draw data and draw it.
    RenderUi,
}

/// Everything the loop owns between two events.
#[derive(Clone, Copy, Debug, PartialEq, Eq)]
pub struct ApplicationState {
    pub phase: Phase,
    /// Set when Escape was pressed during a frame; acted on with the next
    /// event.
    pub exit_requested: bool,
    /// Clock reading at the last batch of events, in microseconds.
    pub last_frame: u64,
    pub ui: UiFlags,
}

/// The order in which the application comes up. The device needs the window;
/// the renderer needs both the UI context and the device.
pub open spec fn startup_order() -> Seq<StartupStep> {
    seq![
        StartupStep::CreateWindow,
        StartupStep::CreateDevice,
        StartupStep::CreateUiContext,
        StartupStep::AttachPlatform,
        StartupStep::CreateRenderer,
        StartupStep::RegisterFonts,
        StartupStep::ComputeScale,
    ]
}

/// The order of the steps of one frame: the device opens the frame, the UI is
/// begun, described and drawn, the device closes the frame and presents it.
pub open spec fn frame_order() -> Seq<FrameStep> {
    seq![
        FrameStep::Device(DeviceCommand::ClearTarget { color: BACKGROUND_COLOR }),
        FrameStep::Device(DeviceCommand::BeginScene),
        FrameStep::NewUiFrame,
        FrameStep::DescribeUi,
        FrameStep::RenderUi,
        FrameStep::Device(DeviceCommand::EndScene),
        FrameStep::Device(DeviceCommand::Present),
    ]
}

/// Time passed between two readings of the clock; zero if the clock did not
/// advance.
pub open spec fn elapsed_between(last: u64, now: u64) -> u64 {
    if now >= last {
        (now - last) as u64
    } else {
        0
    }
}

/// The state after `event` was handled in `state`.
pub open spec fn next_state(state: ApplicationState, event: LoopEvent) -> ApplicationState {
    match state.phase {
        Phase::Exiting => state,
        Phase::Initializing => match event {
            LoopEvent::CloseRequested => ApplicationState { phase: Phase::Exiting, ..state },
            _ => state,
        },
        Phase::Running => if state.exit_requested {
            ApplicationState { phase: Phase::Exiting, ..state }
        } else {
            match event {
                LoopEvent::NewEvents { now } => ApplicationState { last_frame: now, ..state },
                LoopEvent::EventsDrained => state,
                LoopEvent::RedrawRequested => state,
                LoopEvent::FrameRendered(input) => ApplicationState {
                    exit_requested: input.escape_pressed,
                    ui: flags_after_frame(state.ui, input.ui),
                    ..state
                },
                LoopEvent::CloseRequested => ApplicationState { phase: Phase::Exiting, ..state },
                LoopEvent::Other => state,
            }
        },
    }
}

/// The action that answers `event` in `state`.
pub open spec fn action_for(state: ApplicationState, event: LoopEvent) -> Action {
    match state.phase {
        Phase::Exiting => Action::Stop,
        Phase::Initializing => match event {
            LoopEvent::CloseRequested => Action::Stop,
            _ => Action::Idle,
        },
        Phase::Running => if state.exit_requested {
            Action::Stop
        } else {
            match event {
                LoopEvent::NewEvents { now } => Action::AdvanceClock {
                    elapsed: elapsed_between(state.last_frame, now),
                },
                LoopEvent::EventsDrained => Action::PrepareFrame,
                LoopEvent::RedrawRequested => Action::Render,
                LoopEvent::FrameRendered(_) => Action::Idle,
                LoopEvent::CloseRequested => Action::Stop,
                LoopEvent::Other => Action::Forward,
            }
        },
    }
}

/// The state after a run of events, oldest first.
pub open spec fn state_after(state: ApplicationState, events: Seq<LoopEvent>) -> ApplicationState
    decreases events.len(),
{
    if events.len() == 0 {
        state
    } else {
        state_after(next_state(state, events[0]), events.drop_first())
    }
}

/// How many frames are rendered over a run of events: the number of `Render`
/// actions that answer them.
pub open spec fn frames_rendered(state: ApplicationState, events: Seq<LoopEvent>) -> nat
    decreases events.len(),
{
    if events.len() == 0 {
        0
    } else {
        let here: nat = if action_for(state, events[0]) == Action::Render {
            1
        } else {
            0
        };
        here + frames_rendered(next_state(state, events[0]), events.drop_first())
    }
}

/// How many redraw requests a run of events holds.
pub open spec fn redraw_requests(events: Seq<LoopEvent>) -> nat
    decreases events.len(),
{
    if events.len() == 0 {
        0
    } else {
        let here: nat = if events[0] == LoopEvent::RedrawRequested {
            1
        } else {
            0
        };
        here + redraw_requests(events.drop_first())
    }
}

/// Whether an event asks the loop to end: a close request, or a frame during
/// which Escape was pressed.
pub open spec fn asks_to_exit(event: LoopEvent) -> bool {
    match event {
        LoopEvent::CloseRequested => true,
        LoopEvent::FrameRendered(input) => input.escape_pressed,
        _ => false,
    }
}

/// The steps that bring the application up, in order.
pub fn startup_sequence() -> (steps: Vec<StartupStep>)
    ensures
        steps@ == startup_order(),
{
    let mut steps: Vec<StartupStep> = Vec::new();
    steps.push(StartupStep::CreateWindow);
    steps.push(StartupStep::CreateDevice);
    steps.push(StartupStep::CreateUiContext);
    steps.push(StartupStep::AttachPlatform);
    steps.push(StartupStep::CreateRenderer);
    steps.push(StartupStep::RegisterFonts);
    steps.push(StartupStep::ComputeScale);
    assert(steps@ =~= startup_order());
    steps
}

/// The steps of rendering one frame on `device`, in order: the device's
/// opening calls, the interface, the device's closing calls.
pub fn render_sequence(device: &DeviceContext) -> (steps: Vec<FrameStep>)
    ensures
        steps@ == frame_order(),
{
    let opening: Vec<DeviceCommand> = device.begin_frame();
    let closing: Vec<DeviceCommand> = device.end_frame();
    let mut steps: Vec<FrameStep> = Vec::new();
    let mut i: usize = 0;
    while i < opening.len()
        invariant
            i <= opening.len(),
            opening@ == opening_commands(),
            steps@ == frame_order().subrange(0, i as int),
        decreases opening.len() - i,
    {
        steps.push(FrameStep::Device(opening[i]));
        i = i + 1;
        assert(steps@ =~= frame_order().subrange(0, i as int));
    }
    steps.push(FrameStep::NewUiFrame);
    steps.push(FrameStep::DescribeUi);
    steps.push(FrameStep::RenderUi);
    assert(steps@ =~= frame_order().subrange(0, 5));
    let mut j: usize = 0;
    while j < closing.len()
        invariant
            j <= closing.len(),
            closing@ == closing_commands(),
            steps@ == frame_order().subrange(0, 5 + j),
        decreases closing.len() - j,
    {
        steps.push(FrameStep::Device(closing[j]));
        j = j + 1;
        assert(steps@ =~= frame_order().subrange(0, 5 + j));
    }
    assert(steps@ =~= frame_order());
    steps
}

impl ApplicationState {
    /// The state before start-up: nothing requested, the edit window closed.
    pub fn new() -> (state: ApplicationState)
        ensures
            state == (ApplicationState {
                phase: Phase::Initializing,
                exit_requested: false,
                last_frame: 0,
                ui: UiFlags { edit_window_opened: false },
            }),
    {
        ApplicationState {
            phase: Phase::Initializing,
            exit_requested: false,
            last_frame: 0,
            ui: UiFlags::new(),
        }
    }

    /// Ends start-up: the loop is running from the clock reading `now` on. A
    /// loop that is already running or exiting is left as it is.
    pub fn start(&mut self, now: u64)
        ensures
            old(self).phase == Phase::Initializing ==> *final(self) == (ApplicationState {
                phase: Phase::Running,
                last_frame: now,
                ..*old(self)
            }),
            old(self).phase != Phase::Initializing ==> *final(self) == *old(self),
    {
        match self.phase {
            Phase::Initializing => {
                self.phase = Phase::Running;
                self.last_frame = now;
            },
            _ => {},
        }
    }

    /// Handles one event and says what the program has to do. An exit that was
    /// requested during a frame takes effect here, with the first event after
    /// that frame; once the loop is exiting every answer is `Stop`.
    pub fn handle_event(&mut self, event: LoopEvent) -> (action: Action)
        ensures
            *final(self) == next_state(*old(self), event),
            action == action_for(*old(self), event),
    {
        match self.phase {
            Phase::Exiting => Action::Stop,
            Phase::Initializing => match event {
                LoopEvent::CloseRequested => {
                    self.phase = Phase::Exiting;
                    Action::Stop
                },
                _ => Action::Idle,
            },
            Phase::Running => {
                if self.exit_requested {
                    self.phase = Phase::Exiting;
                    return Action::Stop;
                }
                match event {
                    LoopEvent::NewEvents { now } => {
                        let elapsed: u64 = if now >= self.last_frame {
                            now - self.last_frame
                        } else {
                            0
                        };
                        self.last_frame = now;
                        Action::AdvanceClock { elapsed }
                    },
                    LoopEvent::EventsDrained => Action::PrepareFrame,
                    LoopEvent::RedrawRequested => Action::Render,
                    LoopEvent::FrameRendered(input) => {
                        self.exit_requested = input.escape_pressed;
                        self.ui = self.ui.after_menu(input.ui.activated).after_window(
                            input.ui.close_clicked,
                        );
                        Action::Idle
                    },
                    LoopEvent::CloseRequested => {
                        self.phase = Phase::Exiting;
                        Action::Stop
                    },
                    LoopEvent::Other => Action::Forward,
                }
            },
        }
    }
}

/// While no event asks to exit, a running loop keeps running, and it renders
/// exactly one frame for every redraw request.
pub proof fn lemma_running_renders_each_redraw(state: ApplicationState, events: Seq<LoopEvent>)
    requires
        state.phase == Phase::Running,
        !state.exit_requested,
        forall|i: int| 0 <= i < events.len() ==> !asks_to_exit(#[trigger] events[i]),
    ensures
        state_after(state, events).phase == Phase::Running,
        !state_after(state, events).exit_requested,
        frames_rendered(state, events) == redraw_requests(events),
    decreases events.len(),
{
    if events.len() > 0 {
        let rest = events.drop_first();
        assert(!asks_to_exit(events[0]));
        assert forall|i: int| 0 <= i < rest.len() implies !asks_to_exit(#[trigger] rest[i]) by {
            assert(rest[i] == events[i + 1]);
        }
        lemma_running_renders_each_redraw(next_state(state, events[0]), rest);
    }
}

/// Once the loop is exiting it stays so: no run of events changes the state,
/// and no frame is rendered.
pub proof fn lemma_exiting_is_terminal(state: ApplicationState, events: Seq<LoopEvent>)
    requires
        state.phase == Phase::Exiting,
    ensures
        state_after(state, events) == state,
        frames_rendered(state, events) == 0,
        forall|event: LoopEvent| #[trigger] action_for(state, event) == Action::Stop,
    decreases events.len(),
{
    if events.len() > 0 {
        lemma_exiting_is_terminal(state, events.drop_first());
    }
}

/// Escape pressed during a frame sets the exit request when that frame is
/// reported; the very next event, whatever it is, is answered with `Stop` and
/// takes the loop to `Exiting`, and no frame is rendered from then on.
pub proof fn lemma_escape_exits_after_frame(
    state: ApplicationState,
    input: FrameInput,
    next: LoopEvent,
    later: Seq<LoopEvent>,
)
    requires
        state.phase == Phase::Running,
        !state.exit_requested,
        input.escape_pressed,
    ensures
        ({
            let signalled = next_state(state, LoopEvent::FrameRendered(input));
            &&& signalled.exit_requested
            &&& action_for(state, LoopEvent::FrameRendered(input)) == Action::Idle
            &&& action_for(signalled, next) == Action::Stop
            &&& next_state(signalled, next).phase == Phase::Exiting
            &&& frames_rendered(signalled, seq![next] + later) == 0
            &&& state_after(signalled, seq![next] + later).phase == Phase::Exiting
        }),
{
    let signalled = next_state(state, LoopEvent::FrameRendered(input));
    let events = seq![next] + later;
    assert(events[0] == next);
    assert(events.drop_first() =~= later);
    lemma_exiting_is_terminal(next_state(signalled, next), later);
}

/// A close request takes the loop to `Exiting` at once, in whatever state it
/// arrives: the answer is `Stop`, and no redraw is needed or rendered after
/// it.
pub proof fn lemma_close_exits_at_once(state: ApplicationState, later: Seq<LoopEvent>)
    ensures
        next_state(state, LoopEvent::CloseRequested).phase == Phase::Exiting,
        action_for(state, LoopEvent::CloseRequested) == Action::Stop,
        frames_rendered(state, seq![LoopEvent::CloseRequested] + later) == 0,
        state_after(state, seq![LoopEvent::CloseRequested] + later).phase == Phase::Exiting,
{
    let events = seq![LoopEvent::CloseRequested] + later;
    assert(events[0] == LoopEvent::CloseRequested);
    assert(events.drop_first() =~= later);
    lemma_exiting_is_terminal(next_state(state, LoopEvent::CloseRequested), later);
}

/// The edit window's flag follows the frames alone: events other than a
/// reported frame never change it.
pub proof fn lemma_only_frames_change_flags(state: ApplicationState, event: LoopEvent)
    requires
        !(event is FrameRendered),
    ensures
        next_state(state, event).ui == state.ui,
{
}

/// An open edit window stays open over any run of events in which no
/// reported frame has its close button used, whatever else happens: clock
/// ticks, redraws, other input, menu choices, even the end of the loop.
pub proof fn lemma_edit_window_survives_events(state: ApplicationState, events: Seq<LoopEvent>)
    requires
        state.ui.edit_window_opened,
        forall|i: int|
            0 <= i < events.len() ==> ((#[trigger] events[i]) matches LoopEvent::FrameRendered(
                input,
            ) ==> !input.ui.close_clicked),
    ensures
        state_after(state, events).ui.edit_window_opened,
    decreases events.len(),
{
    if events.len() > 0 {
        let rest = events.drop_first();
        let first = events[0];
        assert(first matches LoopEvent::FrameRendered(input) ==> !input.ui.close_clicked);
        assert forall|i: int| 0 <= i < rest.len() implies ((#[trigger] rest[i])
            matches LoopEvent::FrameRendered(input) ==> !input.ui.close_clicked) by {
            assert(rest[i] == events[i + 1]);
        }
        lemma_edit_window_survives_events(next_state(state, first), rest);
    }
}

} // verus!
