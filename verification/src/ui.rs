//! The UI loop's state machine.
//!
//! The loop itself belongs to the caller: it waits for the platform, hands
//! each event to [`UiState`] and performs, in order, the [`Action`]s that come
//! back. After every event the engine is pumped once ([`Action::Pump`]); it
//! does no work of its own between events.

use crate::input::{
    button_action, engine_button, translate_button, translate_button_state, translate_wheel,
    wheel_delta, ButtonAction, ButtonState, DevicePoint, EngineButton, RawButton, ScrollDelta,
    WheelDelta,
};
use crate::mailbox::{Command, CommandView};
use crate::page::{initial_page, page_address, parsed_url};
use crate::render::{repaint_plan, repaint_steps, RenderStep};
use vstd::prelude::*;

verus! {

/// Where the loop stands.
#[derive(Clone, Copy, Debug, PartialEq, Eq, Structural)]
pub enum Phase {
    /// No window yet.
    Uninitialized,
    /// Window, contexts, engine and content view were just created.
    WindowReady,
    /// Events are being handled.
    Running,
    /// The window was asked to close; nothing is handled any more.
    ShuttingDown,
}

/// The logical size that a window is configured with.
#[derive(Clone, Copy, Debug, PartialEq, Eq, Structural)]
pub struct WindowSize {
    pub width: u32,
    pub height: i32,
}

/// A window event of the platform, reduced to what the loop reads in it.
#[derive(Clone, Copy, Debug, PartialEq, Eq, Structural)]
pub enum WindowInput {
    CloseRequested,
    /// The window's new physical size.
    Resized { width: u32, height: u32 },
    /// The new device pixel ratio, as the bit pattern of an `f64`.
    ScaleFactorChanged { scale_bits: u64 },
    CursorMoved { position: DevicePoint },
    MouseInput { state: ButtonState, button: RawButton },
    /// The modifier keys that are held, as the platform's bit set.
    ModifiersChanged { modifiers: u32 },
    /// A key went down or up. The key itself stays with the caller, who
    /// translates it once it is told to ([`Action::ForwardKey`]).
    KeyboardInput,
    MouseWheel { delta: ScrollDelta },
    RedrawRequested,
    /// Any event that has no effect of its own.
    Other,
}

/// What the caller is to do, on the window, the contexts, the engine or the
/// content view.
#[derive(Clone, Debug, PartialEq, Eq)]
pub enum Action {
    /// Create the visible window with this title and logical size (width,
    /// height).
    CreateWindow { title: String, size: WindowSize },
    /// Create the window's rendering context and make it current.
    CreateWindowContext,
    /// Create the offscreen rendering context, as large as the window.
    CreateOffscreenContext,
    /// Build the engine, with a wake notifier that posts [`Command::Wake`].
    BuildEngine,
    /// Create the content view on the offscreen context, scaled by the
    /// window's device pixel ratio, and open `url` in it.
    CreateView { url: String },
    /// Ask the platform for a redraw of the window.
    RequestRedraw,
    /// Park the loop until the next event.
    WaitForEvents,
    /// Leave the loop.
    ExitLoop,
    /// Give the window's rendering context this physical size.
    ResizeWindowContext { width: u32, height: u32 },
    /// Give the content view, and with it the offscreen context, this
    /// physical size.
    ResizeView { width: u32, height: u32 },
    /// Give the content view this device pixel ratio (bits of an `f64`).
    SetViewScale { scale_bits: u64 },
    ForwardMove { position: DevicePoint },
    ForwardButton { action: ButtonAction, button: EngineButton, position: DevicePoint },
    /// Translate the key event at hand with these modifiers and forward it.
    ForwardKey { modifiers: u32 },
    ForwardWheel { delta: WheelDelta, position: DevicePoint },
    /// Draw a frame: perform the steps of [`UiState::repaint`]. Whatever asks
    /// for this has cleared the frame signal already.
    Repaint,
    /// Let the engine take one step, then perform what
    /// [`UiState::pump_servo`] hands out.
    Pump,
    /// Have the content view evaluate this script; its result is dropped.
    EvaluateScript { script: String },
    SetTitle { title: String },
    /// Ask the platform to give the window this logical size.
    RequestInnerSize { width: u32, height: u32 },
}

/// An [`Action`] with its texts as sequences of characters.
pub enum ActionView {
    CreateWindow { title: Seq<char>, size: WindowSize },
    CreateWindowContext,
    CreateOffscreenContext,
    BuildEngine,
    CreateView { url: Seq<char> },
    RequestRedraw,
    WaitForEvents,
    ExitLoop,
    ResizeWindowContext { width: u32, height: u32 },
    ResizeView { width: u32, height: u32 },
    SetViewScale { scale_bits: u64 },
    ForwardMove { position: DevicePoint },
    ForwardButton { action: ButtonAction, button: EngineButton, position: DevicePoint },
    ForwardKey { modifiers: u32 },
    ForwardWheel { delta: WheelDelta, position: DevicePoint },
    Repaint,
    Pump,
    EvaluateScript { script: Seq<char> },
    SetTitle { title: Seq<char> },
    RequestInnerSize { width: u32, height: u32 },
}

impl View for Action {
    type V = ActionView;

    open spec fn view(&self) -> ActionView {
        match *self {
            Action::CreateWindow { title, size } => ActionView::CreateWindow { title: title@, size },
            Action::CreateWindowContext => ActionView::CreateWindowContext,
            Action::CreateOffscreenContext => ActionView::CreateOffscreenContext,
            Action::BuildEngine => ActionView::BuildEngine,
            Action::CreateView { url } => ActionView::CreateView { url: url@ },
            Action::RequestRedraw => ActionView::RequestRedraw,
            Action::WaitForEvents => ActionView::WaitForEvents,
            Action::ExitLoop => ActionView::ExitLoop,
            Action::ResizeWindowContext { width, height } => ActionView::ResizeWindowContext {
                width,
                height,
            },
            Action::ResizeView { width, height } => ActionView::ResizeView { width, height },
            Action::SetViewScale { scale_bits } => ActionView::SetViewScale { scale_bits },
            Action::ForwardMove { position } => ActionView::ForwardMove { position },
            Action::ForwardButton { action, button, position } => ActionView::ForwardButton {
                action,
                button,
                position,
            },
            Action::ForwardKey { modifiers } => ActionView::ForwardKey { modifiers },
            Action::ForwardWheel { delta, position } => ActionView::ForwardWheel {
                delta,
                position,
            },
            Action::Repaint => ActionView::Repaint,
            Action::Pump => ActionView::Pump,
            Action::EvaluateScript { script } => ActionView::EvaluateScript { script: script@ },
            Action::SetTitle { title } => ActionView::SetTitle { title: title@ },
            Action::RequestInnerSize { width, height } => ActionView::RequestInnerSize {
                width,
                height,
            },
        }
    }
}

/// The views of `actions`, in the same order.
pub open spec fn action_views(actions: Seq<Action>) -> Seq<ActionView> {
    Seq::new(actions.len(), |i: int| actions[i]@)
}

/// All that the UI thread keeps between events.
pub struct UiStateView {
    pub phase: Phase,
    /// The engine has signalled a frame since the last repaint.
    pub needs_repaint: bool,
    /// Where the pointer was last seen.
    pub pointer: DevicePoint,
    /// The modifier keys that are held.
    pub modifiers: u32,
    /// The window's title: the configured one until a controller sets
    /// another.
    pub title: Seq<char>,
    /// The configured address.
    pub url: Seq<char>,
    /// The configured logical size.
    pub width: u32,
    pub height: i32,
    /// The logical size that a controller asked for last.
    pub requested_size: Option<(u32, u32)>,
    /// Whether the controller registered a callback for outbound messages.
    pub callback_registered: bool,
}

pub struct UiState {
    phase: Phase,
    needs_repaint: bool,
    pointer: DevicePoint,
    modifiers: u32,
    title: String,
    url: String,
    width: u32,
    height: i32,
    requested_size: Option<(u32, u32)>,
    callback_registered: bool,
}

impl View for UiState {
    type V = UiStateView;

    closed spec fn view(&self) -> UiStateView {
        UiStateView {
            phase: self.phase,
            needs_repaint: self.needs_repaint,
            pointer: self.pointer,
            modifiers: self.modifiers,
            title: self.title@,
            url: self.url@,
            width: self.width,
            height: self.height,
            requested_size: self.requested_size,
            callback_registered: self.callback_registered,
        }
    }
}

/// Window, contexts, engine and content view exist.
pub open spec fn is_ready(phase: Phase) -> bool {
    phase == Phase::WindowReady || phase == Phase::Running
}

/// The phase after an event was handled: a window that was just made ready
/// is running from then on.
pub open spec fn after_activity(phase: Phase) -> Phase {
    if phase == Phase::WindowReady {
        Phase::Running
    } else {
        phase
    }
}

/// The state before the platform's first activation.
pub open spec fn initial_state(
    title: Seq<char>,
    url: Seq<char>,
    width: u32,
    height: i32,
    callback_registered: bool,
) -> UiStateView {
    UiStateView {
        phase: Phase::Uninitialized,
        needs_repaint: false,
        pointer: DevicePoint { x_bits: 0, y_bits: 0 },
        modifiers: 0,
        title,
        url,
        width,
        height,
        requested_size: None,
        callback_registered,
    }
}

/// The state after an activation: the first one makes the window ready, any
/// later one changes nothing.
pub open spec fn resumed_state(s: UiStateView) -> UiStateView {
    if s.phase == Phase::Uninitialized {
        UiStateView { phase: Phase::WindowReady, ..s }
    } else {
        s
    }
}

/// What an activation asks for, given the address to open: on the first one
/// the window, both contexts, the engine and the content view are created,
/// the engine is pumped once to start loading, a first redraw is requested and
/// the loop is parked; on any later one nothing.
pub open spec fn startup_actions(s: UiStateView, address: Seq<char>) -> Seq<ActionView> {
    if s.phase == Phase::Uninitialized {
        seq![
            ActionView::CreateWindow {
                title: s.title,
                size: WindowSize { width: s.width, height: s.height },
            },
            ActionView::CreateWindowContext,
            ActionView::CreateOffscreenContext,
            ActionView::BuildEngine,
            ActionView::CreateView { url: address },
            ActionView::Pump,
            ActionView::RequestRedraw,
            ActionView::WaitForEvents,
        ]
    } else {
        Seq::empty()
    }
}

/// What an activation asks for: [`startup_actions`] with the configured
/// address as parsed, or the blank page where it is no URL.
pub open spec fn resumed_actions(s: UiStateView) -> Seq<ActionView> {
    startup_actions(s, page_address(parsed_url(s.url)))
}

/// The state after a window event. A close request ends the loop; a pointer
/// move and a change of modifiers are remembered; a redraw request on a ready
/// window repaints and so clears the frame signal; nothing else is kept. Once
/// the loop is shutting down no event changes anything.
pub open spec fn window_event_state(s: UiStateView, event: WindowInput) -> UiStateView {
    if s.phase == Phase::ShuttingDown {
        s
    } else {
        match event {
            WindowInput::CloseRequested => UiStateView { phase: Phase::ShuttingDown, ..s },
            WindowInput::RedrawRequested => UiStateView {
                phase: after_activity(s.phase),
                needs_repaint: s.needs_repaint && !is_ready(s.phase),
                ..s
            },
            WindowInput::CursorMoved { position } => UiStateView {
                phase: after_activity(s.phase),
                pointer: position,
                ..s
            },
            WindowInput::ModifiersChanged { modifiers } => UiStateView {
                phase: after_activity(s.phase),
                modifiers,
                ..s
            },
            _ => UiStateView { phase: after_activity(s.phase), ..s },
        }
    }
}

/// What a window event asks of contexts and content view once they exist.
pub open spec fn window_event_effects(s: UiStateView, event: WindowInput) -> Seq<ActionView> {
    match event {
        WindowInput::Resized { width, height } => seq![
            ActionView::ResizeWindowContext { width, height },
            ActionView::ResizeView { width, height },
        ],
        WindowInput::ScaleFactorChanged { scale_bits } => seq![
            ActionView::SetViewScale { scale_bits },
        ],
        WindowInput::CursorMoved { position } => seq![ActionView::ForwardMove { position }],
        WindowInput::MouseInput { state, button } => seq![
            ActionView::ForwardButton {
                action: button_action(state),
                button: engine_button(button),
                position: s.pointer,
            },
        ],
        WindowInput::KeyboardInput => seq![ActionView::ForwardKey { modifiers: s.modifiers }],
        WindowInput::MouseWheel { delta } => seq![
            ActionView::ForwardWheel { delta: wheel_delta(delta), position: s.pointer },
        ],
        WindowInput::RedrawRequested => seq![ActionView::Repaint],
        _ => Seq::empty(),
    }
}

/// What a window event asks for: nothing once the loop is shutting down; to
/// leave the loop on a close request; else the event's own effects, if the
/// window is ready, and then one pump of the engine.
pub open spec fn window_event_actions(s: UiStateView, event: WindowInput) -> Seq<ActionView> {
    if s.phase == Phase::ShuttingDown {
        Seq::empty()
    } else if event == WindowInput::CloseRequested {
        seq![ActionView::ExitLoop]
    } else if is_ready(s.phase) {
        window_event_effects(s, event).push(ActionView::Pump)
    } else {
        seq![ActionView::Pump]
    }
}

/// The state after a command from the mailbox. On a ready window a new title
/// and a requested size are remembered; nothing else is kept, and before the
/// window exists or once the loop is shutting down a command leaves no trace.
pub open spec fn user_event_state(s: UiStateView, command: CommandView) -> UiStateView {
    if s.phase == Phase::ShuttingDown {
        s
    } else if is_ready(s.phase) {
        match command {
            CommandView::SetTitle(title) => UiStateView { phase: Phase::Running, title, ..s },
            CommandView::Resize(width, height) => UiStateView {
                phase: Phase::Running,
                requested_size: Some((width, height)),
                ..s
            },
            _ => UiStateView { phase: Phase::Running, ..s },
        }
    } else {
        s
    }
}

/// What a command asks of window and content view once they exist.
pub open spec fn user_event_effects(command: CommandView) -> Seq<ActionView> {
    match command {
        CommandView::Wake => Seq::empty(),
        CommandView::ExecuteScript(script) => seq![ActionView::EvaluateScript { script }],
        CommandView::SetTitle(title) => seq![ActionView::SetTitle { title }],
        CommandView::Resize(width, height) => seq![
            ActionView::RequestInnerSize { width, height },
        ],
    }
}

/// What a command asks for: nothing once the loop is shutting down; else the
/// command's own effect, if the window is ready, and then one pump of the
/// engine.
pub open spec fn user_event_actions(s: UiStateView, command: CommandView) -> Seq<ActionView> {
    if s.phase == Phase::ShuttingDown {
        Seq::empty()
    } else if is_ready(s.phase) {
        user_event_effects(command).push(ActionView::Pump)
    } else {
        seq![ActionView::Pump]
    }
}

/// The state after a repaint: on a ready window the frame signal is cleared,
/// and nothing else changes; before the window exists, and once the loop is
/// shutting down, a repaint is no repaint and changes nothing.
pub open spec fn repaint_state(s: UiStateView) -> UiStateView {
    if is_ready(s.phase) {
        UiStateView { needs_repaint: false, ..s }
    } else {
        s
    }
}

/// What follows one step of the engine: a repaint if a frame is waiting.
pub open spec fn pump_actions(s: UiStateView) -> Seq<ActionView> {
    if s.needs_repaint {
        seq![ActionView::Repaint]
    } else {
        Seq::empty()
    }
}

impl UiState {
    /// The state before the platform's first activation: no window, no frame
    /// waiting, the pointer at the origin, no modifier held.
    pub fn new(title: String, url: String, width: u32, height: i32, callback_registered: bool) -> (state:
        UiState)
        ensures
            state@ == initial_state(title@, url@, width, height, callback_registered),
    {
        UiState {
            phase: Phase::Uninitialized,
            needs_repaint: false,
            pointer: DevicePoint { x_bits: 0, y_bits: 0 },
            modifiers: 0,
            title,
            url,
            width,
            height,
            requested_size: None,
            callback_registered,
        }
    }

    /// Handles an activation of the platform. The first one asks for window,
    /// contexts, engine and content view and makes the window ready; the view
    /// opens the configured address, or the blank page where that is no URL.
    /// Any later activation does nothing.
    pub fn resumed(&mut self) -> (actions: Vec<Action>)
        ensures
            final(self)@ == resumed_state(old(self)@),
            action_views(actions@) == resumed_actions(old(self)@),
    {
        let mut actions: Vec<Action> = Vec::new();
        match self.phase {
            Phase::Uninitialized => {
                let address = initial_page(self.url.as_str());
                actions.push(
                    Action::CreateWindow {
                        title: self.title.clone(),
                        size: WindowSize { width: self.width, height: self.height },
                    },
                );
                actions.push(Action::CreateWindowContext);
                actions.push(Action::CreateOffscreenContext);
                actions.push(Action::BuildEngine);
                actions.push(Action::CreateView { url: address });
                actions.push(Action::Pump);
                actions.push(Action::RequestRedraw);
                actions.push(Action::WaitForEvents);
                self.phase = Phase::WindowReady;
            },
            _ => {},
        }
        assert(action_views(actions@) =~= resumed_actions(old(self)@));
        actions
    }

    /// Handles a window event. A close request ends the loop. Any other event
    /// has its effect and is followed by one pump of the engine: a resize
    /// reaches the window's context and the content view, a new pixel ratio
    /// the content view; a pointer move is remembered and forwarded; a button
    /// is forwarded at the place where the pointer was last seen; a change of
    /// modifiers is remembered and not forwarded; a key is forwarded with the
    /// modifiers held; a wheel turn is forwarded as a pixel delta; a redraw
    /// request repaints once, which clears the frame signal, so that the pump
    /// behind it repaints again only for a frame that the engine signals
    /// meanwhile. Before the window exists nothing is forwarded, and once the
    /// loop is shutting down nothing happens at all.
    pub fn window_event(&mut self, event: WindowInput) -> (actions: Vec<Action>)
        ensures
            final(self)@ == window_event_state(old(self)@, event),
            action_views(actions@) == window_event_actions(old(self)@, event),
    {
        let mut actions: Vec<Action> = Vec::new();
        match self.phase {
            Phase::ShuttingDown => {
                assert(action_views(actions@) =~= window_event_actions(old(self)@, event));
                return actions;
            },
            _ => {},
        }
        let ready = self.ready();
        match event {
            WindowInput::CloseRequested => {
                self.phase = Phase::ShuttingDown;
                actions.push(Action::ExitLoop);
                assert(action_views(actions@) =~= window_event_actions(old(self)@, event));
                return actions;
            },
            WindowInput::Resized { width, height } => {
                if ready {
                    actions.push(Action::ResizeWindowContext { width, height });
                    actions.push(Action::ResizeView { width, height });
                }
            },
            WindowInput::ScaleFactorChanged { scale_bits } => {
                if ready {
                    actions.push(Action::SetViewScale { scale_bits });
                }
            },
            WindowInput::CursorMoved { position } => {
                self.pointer = position;
                if ready {
                    actions.push(Action::ForwardMove { position });
                }
            },
            WindowInput::MouseInput { state, button } => {
                if ready {
                    actions.push(
                        Action::ForwardButton {
                            action: translate_button_state(state),
                            button: translate_button(button),
                            position: self.pointer,
                        },
                    );
                }
            },
            WindowInput::ModifiersChanged { modifiers } => {
                self.modifiers = modifiers;
            },
            WindowInput::KeyboardInput => {
                if ready {
                    actions.push(Action::ForwardKey { modifiers: self.modifiers });
                }
            },
            WindowInput::MouseWheel { delta } => {
                if ready {
                    actions.push(
                        Action::ForwardWheel {
                            delta: translate_wheel(delta),
                            position: self.pointer,
                        },
                    );
                }
            },
            WindowInput::RedrawRequested => {
                if ready {
                    self.needs_repaint = false;
                    actions.push(Action::Repaint);
                }
            },
            WindowInput::Other => {},
        }
        actions.push(Action::Pump);
        self.settle();
        assert(action_views(actions@) =~= window_event_actions(old(self)@, event));
        actions
    }

    /// Handles a command from the mailbox. On a ready window a script is
    /// handed to the content view, a title is set, a size is requested, and a
    /// wake-up has no effect of its own; then the engine is pumped once.
    /// Before the window exists only the pump remains, and once the loop is
    /// shutting down nothing happens at all.
    pub fn user_event(&mut self, command: Command) -> (actions: Vec<Action>)
        ensures
            final(self)@ == user_event_state(old(self)@, command@),
            action_views(actions@) == user_event_actions(old(self)@, command@),
    {
        let mut actions: Vec<Action> = Vec::new();
        match self.phase {
            Phase::ShuttingDown => {
                assert(action_views(actions@) =~= user_event_actions(old(self)@, command@));
                return actions;
            },
            _ => {},
        }
        if self.ready() {
            match command {
                Command::Wake => {},
                Command::ExecuteScript(script) => {
                    actions.push(Action::EvaluateScript { script });
                },
                Command::SetTitle(title) => {
                    self.title = title.clone();
                    actions.push(Action::SetTitle { title });
                },
                Command::Resize(width, height) => {
                    self.requested_size = Some((width, height));
                    actions.push(Action::RequestInnerSize { width, height });
                },
            }
        }
        actions.push(Action::Pump);
        self.settle();
        assert(action_views(actions@) =~= user_event_actions(old(self)@, command@));
        actions
    }

    /// Says what follows one step of the engine: if a frame was signalled
    /// since the last repaint, the signal is cleared and a repaint is asked
    /// for; else nothing.
    pub fn pump_servo(&mut self) -> (actions: Vec<Action>)
        ensures
            final(self)@ == (UiStateView { needs_repaint: false, ..old(self)@ }),
            action_views(actions@) == pump_actions(old(self)@),
    {
        let mut actions: Vec<Action> = Vec::new();
        if self.needs_repaint {
            self.needs_repaint = false;
            actions.push(Action::Repaint);
        }
        assert(action_views(actions@) =~= pump_actions(old(self)@));
        actions
    }

    /// The steps that draw one frame into a window of the given physical
    /// size, and with them the end of the frame signal: the frame that is
    /// drawn is the one that was signalled. While contexts and content view
    /// do not exist there are no steps and the state is left as it is.
    pub fn repaint(&mut self, width: u32, height: u32) -> (steps: Vec<RenderStep>)
        ensures
            steps@ == repaint_steps(is_ready(old(self)@.phase), width, height),
            final(self)@ == repaint_state(old(self)@),
    {
        let ready = self.ready();
        if ready {
            self.needs_repaint = false;
        }
        repaint_plan(ready, width, height)
    }

    /// Records that the engine has a new frame and asks for a redraw.
    pub fn notify_new_frame_ready(&mut self) -> (action: Action)
        ensures
            final(self)@ == (UiStateView { needs_repaint: true, ..old(self)@ }),
            action@ == ActionView::RequestRedraw,
    {
        self.needs_repaint = true;
        Action::RequestRedraw
    }

    /// A change of the load status asks for a redraw and nothing else.
    pub fn notify_load_status_changed(&self) -> (action: Action)
        ensures
            action@ == ActionView::RequestRedraw,
    {
        Action::RequestRedraw
    }

    pub fn phase(&self) -> (phase: Phase)
        ensures
            phase == self@.phase,
    {
        self.phase
    }

    /// Whether window, contexts, engine and content view exist.
    pub fn ready(&self) -> (ready: bool)
        ensures
            ready == is_ready(self@.phase),
    {
        match self.phase {
            Phase::WindowReady => true,
            Phase::Running => true,
            _ => false,
        }
    }

    pub fn needs_repaint(&self) -> (flag: bool)
        ensures
            flag == self@.needs_repaint,
    {
        self.needs_repaint
    }

    pub fn pointer(&self) -> (position: DevicePoint)
        ensures
            position == self@.pointer,
    {
        self.pointer
    }

    pub fn modifiers(&self) -> (modifiers: u32)
        ensures
            modifiers == self@.modifiers,
    {
        self.modifiers
    }

    pub fn title(&self) -> (title: &str)
        ensures
            title@ == self@.title,
    {
        self.title.as_str()
    }

    pub fn url(&self) -> (url: &str)
        ensures
            url@ == self@.url,
    {
        self.url.as_str()
    }

    /// The configured logical size.
    pub fn initial_size(&self) -> (size: WindowSize)
        ensures
            size == (WindowSize { width: self@.width, height: self@.height }),
    {
        WindowSize { width: self.width, height: self.height }
    }

    pub fn requested_size(&self) -> (size: Option<(u32, u32)>)
        ensures
            size == self@.requested_size,
    {
        self.requested_size
    }

    pub fn callback_registered(&self) -> (registered: bool)
        ensures
            registered == self@.callback_registered,
    {
        self.callback_registered
    }

    fn settle(&mut self)
        ensures
            final(self)@ == (UiStateView { phase: after_activity(old(self)@.phase), ..old(self)@ }),
    {
        match self.phase {
            Phase::WindowReady => {
                self.phase = Phase::Running;
            },
            _ => {},
        }
    }
}

/// Only the first activation counts: once it was handled, another one leaves
/// the state as it is and asks for nothing.
pub proof fn second_activation_is_ignored(s: UiStateView)
    ensures
        resumed_state(resumed_state(s)) == resumed_state(s),
        resumed_actions(resumed_state(s)) == Seq::<ActionView>::empty(),
        s.phase == Phase::Uninitialized ==> resumed_state(s).phase == Phase::WindowReady,
{
}

/// One thing that the loop hands to the state machine.
pub enum LoopEvent {
    Activated,
    Window(WindowInput),
    Command(CommandView),
}

/// The state after one event of the loop.
pub open spec fn step(s: UiStateView, event: LoopEvent) -> UiStateView {
    match event {
        LoopEvent::Activated => resumed_state(s),
        LoopEvent::Window(input) => window_event_state(s, input),
        LoopEvent::Command(command) => user_event_state(s, command),
    }
}

/// The state after a run of events, handled in their order.
pub open spec fn run(s: UiStateView, events: Seq<LoopEvent>) -> UiStateView
    decreases events.len(),
{
    if events.len() == 0 {
        s
    } else {
        step(run(s, events.drop_last()), events.last())
    }
}

/// How far a phase is on the way from no window to shutting down.
pub open spec fn progress(phase: Phase) -> nat {
    match phase {
        Phase::Uninitialized => 0,
        Phase::WindowReady => 1,
        Phase::Running => 2,
        Phase::ShuttingDown => 3,
    }
}

/// Whether handling `event` in state `s` repaints: a redraw request on a
/// ready window does, nothing else.
pub open spec fn repaints(s: UiStateView, event: LoopEvent) -> bool {
    event == LoopEvent::Window(WindowInput::RedrawRequested) && is_ready(s.phase)
}

/// A frame signal is cleared by the next repaint and by nothing else: it
/// survives any run of activations, window events and commands, however long,
/// in which no event repaints.
pub proof fn frame_signal_survives_events(s: UiStateView, events: Seq<LoopEvent>)
    requires
        forall|i: int|
            0 <= i < events.len() ==> !repaints(run(s, #[trigger] events.take(i)), events[i]),
    ensures
        run(s, events).needs_repaint == s.needs_repaint,
    decreases events.len(),
{
    if events.len() > 0 {
        let earlier = events.drop_last();
        assert forall|i: int| 0 <= i < earlier.len() implies !repaints(
            run(s, #[trigger] earlier.take(i)),
            earlier[i],
        ) by {
            assert(earlier.take(i) =~= events.take(i));
        }
        frame_signal_survives_events(s, earlier);
        assert(events.take(events.len() - 1) =~= earlier);
        assert(!repaints(run(s, events.take(events.len() - 1)), events[events.len() - 1]));
    }
}

/// A redraw request on a ready window repaints exactly once, also while a
/// frame is waiting: the repaint it asks for clears the frame signal, and the
/// pump behind it, with no new frame signalled, asks for no second one.
pub proof fn redraw_repaints_once(s: UiStateView)
    requires
        is_ready(s.phase),
    ensures
        window_event_actions(s, WindowInput::RedrawRequested) == seq![
            ActionView::Repaint,
            ActionView::Pump,
        ],
        !window_event_state(s, WindowInput::RedrawRequested).needs_repaint,
        pump_actions(window_event_state(s, WindowInput::RedrawRequested)) == Seq::<
            ActionView,
        >::empty(),
        window_event_state(s, WindowInput::RedrawRequested) == (UiStateView {
            phase: Phase::Running,
            needs_repaint: false,
            ..s
        }),
{
    assert(window_event_actions(s, WindowInput::RedrawRequested) =~= seq![
        ActionView::Repaint,
        ActionView::Pump,
    ]);
}

/// Repainting is idempotent: a second repaint with no frame signalled in
/// between takes the same steps as the first and leaves the state that the
/// first left. A repaint touches nothing but the frame signal.
pub proof fn repaint_is_idempotent(s: UiStateView, width: u32, height: u32)
    ensures
        repaint_state(repaint_state(s)) == repaint_state(s),
        repaint_steps(is_ready(repaint_state(s).phase), width, height) == repaint_steps(
            is_ready(s.phase),
            width,
            height,
        ),
        repaint_state(s) == (UiStateView { needs_repaint: repaint_state(s).needs_repaint, ..s }),
        is_ready(s.phase) ==> !repaint_state(s).needs_repaint,
        !is_ready(s.phase) ==> repaint_state(s) == s,
{
}

/// The loop only moves forward: through any run of events the phase never
/// falls back, so what was created once is never created again, and the
/// configured address and size stay what they were.
pub proof fn phase_never_falls_back(s: UiStateView, events: Seq<LoopEvent>)
    ensures
        progress(run(s, events).phase) >= progress(s.phase),
        run(s, events).url == s.url,
        run(s, events).width == s.width,
        run(s, events).height == s.height,
        run(s, events).callback_registered == s.callback_registered,
    decreases events.len(),
{
    if events.len() > 0 {
        phase_never_falls_back(s, events.drop_last());
    }
}

/// A ready window stays ready through every command and through every window
/// event but a close request, so a repaint at a given size takes the same
/// steps before and after any of them.
pub proof fn repaint_is_unaffected_by_events(
    s: UiStateView,
    event: WindowInput,
    command: CommandView,
    width: u32,
    height: u32,
)
    requires
        is_ready(s.phase),
        event != WindowInput::CloseRequested,
    ensures
        is_ready(window_event_state(s, event).phase),
        is_ready(user_event_state(s, command).phase),
        repaint_steps(is_ready(window_event_state(s, event).phase), width, height)
            == repaint_steps(is_ready(s.phase), width, height),
        repaint_steps(is_ready(user_event_state(s, command).phase), width, height)
            == repaint_steps(is_ready(s.phase), width, height),
{
}

/// On a ready window a command that sets the title makes that text the
/// window's title and is followed by one pump. The address, the configured
/// and the requested size, and all else that the state holds stay as they
/// were.
pub proof fn set_title_changes_the_title_only(s: UiStateView, title: Seq<char>)
    requires
        is_ready(s.phase),
    ensures
        user_event_actions(s, CommandView::SetTitle(title)) == seq![
            ActionView::SetTitle { title },
            ActionView::Pump,
        ],
        user_event_state(s, CommandView::SetTitle(title)) == (UiStateView {
            phase: Phase::Running,
            title,
            ..s
        }),
{
    assert(user_event_actions(s, CommandView::SetTitle(title)) =~= seq![
        ActionView::SetTitle { title },
        ActionView::Pump,
    ]);
}

/// On a ready window a resize command asks the platform for that logical
/// size, and the platform's answer, a resize event with the physical size,
/// reaches the window's context and the content view before the engine is
/// pumped, hence before any repaint that the pump can lead to.
pub proof fn resize_reaches_contexts_before_the_pump(
    s: UiStateView,
    width: u32,
    height: u32,
    physical_width: u32,
    physical_height: u32,
)
    requires
        is_ready(s.phase),
    ensures
        user_event_actions(s, CommandView::Resize(width, height)) == seq![
            ActionView::RequestInnerSize { width, height },
            ActionView::Pump,
        ],
        user_event_state(s, CommandView::Resize(width, height)).requested_size == Some(
            (width, height),
        ),
        window_event_actions(
            s,
            WindowInput::Resized { width: physical_width, height: physical_height },
        ) == seq![
            ActionView::ResizeWindowContext { width: physical_width, height: physical_height },
            ActionView::ResizeView { width: physical_width, height: physical_height },
            ActionView::Pump,
        ],
{
    assert(user_event_actions(s, CommandView::Resize(width, height)) =~= seq![
        ActionView::RequestInnerSize { width, height },
        ActionView::Pump,
    ]);
    assert(window_event_actions(
        s,
        WindowInput::Resized { width: physical_width, height: physical_height },
    ) =~= seq![
        ActionView::ResizeWindowContext { width: physical_width, height: physical_height },
        ActionView::ResizeView { width: physical_width, height: physical_height },
        ActionView::Pump,
    ]);
}

/// A button that follows a pointer move is forwarded at the place that the
/// move was forwarded with, whatever place was remembered before.
pub proof fn button_goes_where_the_pointer_moved(
    s: UiStateView,
    position: DevicePoint,
    state: ButtonState,
    button: RawButton,
)
    requires
        is_ready(s.phase),
    ensures
        window_event_actions(s, WindowInput::CursorMoved { position }) == seq![
            ActionView::ForwardMove { position },
            ActionView::Pump,
        ],
        window_event_actions(
            window_event_state(s, WindowInput::CursorMoved { position }),
            WindowInput::MouseInput { state, button },
        ) == seq![
            ActionView::ForwardButton {
                action: button_action(state),
                button: engine_button(button),
                position,
            },
            ActionView::Pump,
        ],
{
    let moved = window_event_state(s, WindowInput::CursorMoved { position });
    assert(window_event_actions(s, WindowInput::CursorMoved { position }) =~= seq![
        ActionView::ForwardMove { position },
        ActionView::Pump,
    ]);
    assert(window_event_actions(moved, WindowInput::MouseInput { state, button }) =~= seq![
        ActionView::ForwardButton {
            action: button_action(state),
            button: engine_button(button),
            position,
        },
        ActionView::Pump,
    ]);
}

/// The engine is pumped after every event, and only then: whatever a window
/// event or a command asks for, short of leaving the loop, ends with the
/// pump, and no pump stands before the end.
pub proof fn every_event_ends_with_one_pump(s: UiStateView, event: WindowInput, command: CommandView)
    requires
        s.phase != Phase::ShuttingDown,
        event != WindowInput::CloseRequested,
    ensures
        window_event_actions(s, event).len() >= 1,
        window_event_actions(s, event).last() == ActionView::Pump,
        forall|i: int|
            0 <= i < window_event_actions(s, event).len() - 1 ==> window_event_actions(
                s,
                event,
            )[i] != ActionView::Pump,
        user_event_actions(s, command).len() >= 1,
        user_event_actions(s, command).last() == ActionView::Pump,
        forall|i: int|
            0 <= i < user_event_actions(s, command).len() - 1 ==> user_event_actions(
                s,
                command,
            )[i] != ActionView::Pump,
{
}

/// Shutting down is final: no activation, window event or command leads out
/// of it or asks for anything.
pub proof fn shutting_down_is_final(s: UiStateView, event: WindowInput, command: CommandView)
    requires
        s.phase == Phase::ShuttingDown,
    ensures
        resumed_state(s) == s,
        window_event_state(s, event) == s,
        user_event_state(s, command) == s,
        resumed_actions(s).len() == 0,
        window_event_actions(s, event).len() == 0,
        user_event_actions(s, command).len() == 0,
{
}

} // verus!
