//! The main-loop of the window system.
//!
//! The backend calls the loop's entry points on its own schedule —
//! `on_resumed`, `on_tick`, `on_window_event`, and so on — and the loop
//! turns them into a well-defined event sequence for the frontend: one
//! `Started`, the queued work of each tick followed by exactly one
//! `EventsCleared`, translated window and input events, and a terminal
//! `Exited`.  Each entry point also hands back the actions the backend
//! must perform.  Once the loop has exited it is terminal: no entry point
//! emits an event, requests an action, or changes any state again.

use vstd::prelude::*;

use crate::channel::pop_model;
use crate::context::{WindowContext, insert_handle_step};
use crate::dynamic::DynamicEvent;
use crate::input::Input;
use crate::window::{
    FullscreenMode, WindowContextEvent, WindowError, WindowHandle, WindowId, WindowSettings,
    WindowState, with_size,
};

verus! {

/// An event generated by the window system for the frontend.
#[derive(PartialEq, Eq, Debug)]
pub enum Event {
    /// The loop has started; emitted exactly once, on the first resume.
    Started,
    /// All queued work of this tick is done; safe to redraw.
    EventsCleared,
    /// An event generated by a specific window.
    WindowEvent(WindowId, WindowEvent),
    /// An input event not tied to a window.
    Input(Input),
    /// The loop has exited; nothing is emitted after this.
    Exited,
}

/// An event generated by a specific window.
#[derive(PartialEq, Eq, Debug)]
pub enum WindowEvent {
    /// The backend finished materializing the window, or failed to.
    Created(Result<(), WindowError>),
    /// The window should be redrawn.
    RedrawRequested,
    /// The window was resized.
    Resized(u32, u32),
    /// The platform asked for the window to be closed.
    Closed,
    /// An input event tied to the window.
    Input(Input),
}

/// A platform window callback, already translated to plain values by the
/// backend.
#[derive(Clone, Copy, PartialEq, Eq, Debug, Structural)]
pub enum NativeWindowEvent {
    /// The platform asked for the window to be closed.
    CloseRequested,
    /// The platform resized the window.
    Resized(u32, u32),
    /// The platform asked for a redraw.
    RedrawRequested,
    /// Input directed at the window.
    Input(Input),
}

/// An action the backend must perform on behalf of the loop.
#[derive(PartialEq, Eq, Debug)]
pub enum BackendAction {
    /// Materialize a platform window with the given settings, then report
    /// back through [`EventLoop::notify_window_ready`].
    CreateWindow(WindowId, WindowSettings),
    /// Destroy the platform window: its last user handle was released.
    DestroyWindow(WindowId),
    /// Redraw the window.  Optional: not all platforms support it.
    RedrawWindow(WindowId),
    /// Retitle the window.  Optional: not all platforms support it.
    RetitleWindow(WindowId, String),
    /// Change the window's fullscreen-mode.  Optional: not all platforms
    /// support it.
    FullscreenWindow(WindowId, Option<FullscreenMode>),
    /// Stop the platform loop; no entry point will emit anything again.
    Exit,
}

impl Clone for Event {
    /// An exact copy of the event.
    fn clone(&self) -> (r: Self)
        ensures
            r == *self,
    {
        match self {
            Event::Started => Event::Started,
            Event::EventsCleared => Event::EventsCleared,
            Event::WindowEvent(id, event) => Event::WindowEvent(*id, event.clone()),
            Event::Input(input) => Event::Input(*input),
            Event::Exited => Event::Exited,
        }
    }
}

impl Clone for WindowEvent {
    /// An exact copy of the event.
    fn clone(&self) -> (r: Self)
        ensures
            r == *self,
    {
        match self {
            WindowEvent::Created(result) => WindowEvent::Created(
                match result {
                    Ok(value) => Ok(*value),
                    Err(error) => Err(error.clone()),
                },
            ),
            WindowEvent::RedrawRequested => WindowEvent::RedrawRequested,
            WindowEvent::Resized(width, height) => WindowEvent::Resized(*width, *height),
            WindowEvent::Closed => WindowEvent::Closed,
            WindowEvent::Input(input) => WindowEvent::Input(*input),
        }
    }
}

impl Clone for BackendAction {
    /// An exact copy of the action.
    fn clone(&self) -> (r: Self)
        ensures
            r == *self,
    {
        match self {
            BackendAction::CreateWindow(id, settings) => BackendAction::CreateWindow(
                *id,
                settings.clone(),
            ),
            BackendAction::DestroyWindow(id) => BackendAction::DestroyWindow(*id),
            BackendAction::RedrawWindow(id) => BackendAction::RedrawWindow(*id),
            BackendAction::RetitleWindow(id, title) => BackendAction::RetitleWindow(
                *id,
                title.clone(),
            ),
            BackendAction::FullscreenWindow(id, mode) => BackendAction::FullscreenWindow(
                *id,
                *mode,
            ),
            BackendAction::Exit => BackendAction::Exit,
        }
    }
}

/// Whether a queued request asks the loop to exit.
pub open spec fn is_exit_request(event: DynamicEvent) -> bool {
    event == DynamicEvent::Window(WindowContextEvent::Exited)
}

/// The backend action a single non-exit request maps to, if any.
/// Requests that carry no work for the backend — among them a resize
/// observation, which travels in the other direction — map to none.
pub open spec fn request_action(event: DynamicEvent) -> Option<BackendAction> {
    match event {
        DynamicEvent::Window(request) => match request {
            WindowContextEvent::WindowCreated(id, settings) => Some(
                BackendAction::CreateWindow(id, settings),
            ),
            WindowContextEvent::WindowClosed(id) => Some(BackendAction::DestroyWindow(id)),
            WindowContextEvent::WindowRedrawRequested(id) => Some(BackendAction::RedrawWindow(id)),
            WindowContextEvent::WindowRenameRequested(id, title) => Some(
                BackendAction::RetitleWindow(id, title),
            ),
            WindowContextEvent::WindowFullscreenRequested(id, mode) => Some(
                BackendAction::FullscreenWindow(id, mode),
            ),
            WindowContextEvent::WindowResized(_, _, _) => None,
            WindowContextEvent::Exited => None,
        },
        _ => None,
    }
}

/// Whether draining `requests` reaches an exit request.
pub open spec fn tick_exits(requests: Seq<DynamicEvent>) -> bool
    decreases requests.len(),
{
    if requests.len() == 0 {
        false
    } else if is_exit_request(requests[0]) {
        true
    } else {
        tick_exits(requests.drop_first())
    }
}

/// The actions one tick hands the backend: one per queued request that
/// maps to one, in queue order, cut off by an exit request, which becomes
/// a final [`BackendAction::Exit`].
pub open spec fn tick_actions(requests: Seq<DynamicEvent>) -> Seq<BackendAction>
    decreases requests.len(),
{
    if requests.len() == 0 {
        Seq::empty()
    } else if is_exit_request(requests[0]) {
        seq![BackendAction::Exit]
    } else {
        match request_action(requests[0]) {
            Some(action) => seq![action] + tick_actions(requests.drop_first()),
            None => tick_actions(requests.drop_first()),
        }
    }
}

/// The state of the window system's main-loop, as the contracts see it.
pub ghost struct LoopState {
    /// The requests queued for the backend, oldest first.
    pub requests: Seq<DynamicEvent>,
    /// Whether the request channel still accepts requests.
    pub requests_open: bool,
    /// The window registry.
    pub windows: Map<u128, WindowState>,
    /// Whether `Started` has been emitted.
    pub started: bool,
    /// Whether the loop has exited: the terminal state.
    pub exited: bool,
}

impl LoopState {
    /// Each registry record is filed under its own identity.
    pub open spec fn wf(self) -> bool {
        forall|bits: u128|
            self.windows.contains_key(bits) ==> (#[trigger] self.windows[bits]).id.bits == bits
    }
}

/// The loop state after a resume callback.
pub open spec fn resumed_step(s: LoopState) -> LoopState {
    if !s.exited && !s.started {
        LoopState { started: true, ..s }
    } else {
        s
    }
}

/// What a resume callback emits: `Started`, exactly once, however many
/// resumes the platform issues.
pub open spec fn resumed_result(s: LoopState) -> Option<Event> {
    if !s.exited && !s.started {
        Some(Event::Started)
    } else {
        None
    }
}

/// The loop state after a tick: the request queue is drained; an exit
/// request moves the loop to its terminal state and closes the channel.
pub open spec fn tick_step(s: LoopState) -> LoopState {
    if s.exited {
        s
    } else {
        LoopState {
            requests: Seq::empty(),
            requests_open: s.requests_open && !tick_exits(s.requests),
            exited: tick_exits(s.requests),
            ..s
        }
    }
}

/// What a tick emits: exactly one `EventsCleared` frame boundary, or a
/// terminal `Exited` when an exit request was drained.
pub open spec fn tick_step_events(s: LoopState) -> Seq<Event> {
    if s.exited {
        Seq::empty()
    } else if tick_exits(s.requests) {
        seq![Event::Exited]
    } else {
        seq![Event::EventsCleared]
    }
}

/// What a tick asks of the backend.
pub open spec fn tick_step_actions(s: LoopState) -> Seq<BackendAction> {
    if s.exited {
        Seq::empty()
    } else {
        tick_actions(s.requests)
    }
}

/// The loop state after a platform window callback: a resize of a live
/// window is written into the registry; everything else, and any callback
/// for a window already gone, changes nothing.
pub open spec fn window_event_step(s: LoopState, id: WindowId, event: NativeWindowEvent) -> LoopState {
    if s.exited || !s.windows.contains_key(id.bits) {
        s
    } else {
        match event {
            NativeWindowEvent::Resized(width, height) => LoopState {
                windows: s.windows.insert(id.bits, with_size(s.windows[id.bits], width, height)),
                ..s
            },
            _ => s,
        }
    }
}

/// What a platform window callback emits: the translated event for a live
/// window, and nothing for a stale one.
pub open spec fn window_event_result(s: LoopState, id: WindowId, event: NativeWindowEvent) -> Option<
    Event,
> {
    if s.exited || !s.windows.contains_key(id.bits) {
        None
    } else {
        match event {
            NativeWindowEvent::CloseRequested => Some(Event::WindowEvent(id, WindowEvent::Closed)),
            NativeWindowEvent::Resized(width, height) => Some(
                Event::WindowEvent(id, WindowEvent::Resized(width, height)),
            ),
            NativeWindowEvent::RedrawRequested => Some(
                Event::WindowEvent(id, WindowEvent::RedrawRequested),
            ),
            NativeWindowEvent::Input(input) => Some(
                Event::WindowEvent(id, WindowEvent::Input(input)),
            ),
        }
    }
}

/// The loop state after the backend reports on a window it was asked to
/// materialize: a handle is written into a live entry and dropped for a
/// stale one; a failure writes nothing.
pub open spec fn ready_step(
    s: LoopState,
    id: WindowId,
    result: Result<WindowHandle, WindowError>,
) -> LoopState {
    if s.exited {
        s
    } else {
        match result {
            Ok(handle) => LoopState { windows: insert_handle_step(s.windows, id, handle), ..s },
            Err(_) => s,
        }
    }
}

/// What the materialization report emits: the window's `Created` event,
/// carrying the backend's result with the handle stripped to `()`.
pub open spec fn ready_result(
    s: LoopState,
    id: WindowId,
    result: Result<WindowHandle, WindowError>,
) -> Option<Event> {
    if s.exited {
        None
    } else {
        match result {
            Ok(_) => Some(Event::WindowEvent(id, WindowEvent::Created(Ok(())))),
            Err(error) => Some(Event::WindowEvent(id, WindowEvent::Created(Err(error)))),
        }
    }
}

/// What a loose input callback emits: the input, forwarded as-is.
pub open spec fn input_result(s: LoopState, input: Input) -> Option<Event> {
    if s.exited {
        None
    } else {
        Some(Event::Input(input))
    }
}

/// The main-loop of the window system.  It owns the [`WindowContext`];
/// the frontend reaches the registry through [`EventLoop::context_mut`].
pub struct EventLoop {
    context: WindowContext,
    is_first_resume: bool,
    has_exited: bool,
}

impl View for EventLoop {
    type V = LoopState;

    closed spec fn view(&self) -> LoopState {
        LoopState {
            requests: self.context.requests(),
            requests_open: self.context.requests_open(),
            windows: self.context.windows(),
            started: !self.is_first_resume,
            exited: self.has_exited,
        }
    }
}

impl EventLoop {
    /// Read access to the window context.
    pub fn context(&self) -> (r: &WindowContext)
        ensures
            r.windows() == self@.windows,
            r.requests() == self@.requests,
            r.requests_open() == self@.requests_open,
            r.wf() == self@.wf(),
    {
        &self.context
    }

    /// Mutable access to the window context, for creating windows and
    /// issuing requests while the loop runs.
    pub fn context_mut(&mut self) -> (r: &mut WindowContext)
        ensures
            (*r).windows() == old(self)@.windows,
            (*r).requests() == old(self)@.requests,
            (*r).requests_open() == old(self)@.requests_open,
            final(self)@.windows == (*final(r)).windows(),
            final(self)@.requests == (*final(r)).requests(),
            final(self)@.requests_open == (*final(r)).requests_open(),
            final(self)@.started == old(self)@.started,
            final(self)@.exited == old(self)@.exited,
    {
        &mut self.context
    }

    /// The platform resumed the loop.  Emits `Started` on the first
    /// resume and nothing on any later one.
    pub fn on_resumed(&mut self) -> (r: Option<Event>)
        ensures
            final(self)@ == resumed_step(old(self)@),
            r == resumed_result(old(self)@),
    {
        if self.has_exited {
            None
        } else if self.is_first_resume {
            self.is_first_resume = false;
            Some(Event::Started)
        } else {
            None
        }
    }

    /// One backend tick: drain the request queue completely, map each
    /// request to its backend action, and emit exactly one frame-boundary
    /// `EventsCleared` — or, when an exit request is drained, discard the
    /// rest of the queue, close it, and emit the terminal `Exited`
    /// instead.  A tick on an exited loop does nothing.
    pub fn on_tick(&mut self) -> (r: (Vec<Event>, Vec<BackendAction>))
        requires
            old(self)@.wf(),
        ensures
            final(self)@ == tick_step(old(self)@),
            final(self)@.wf(),
            r.0@ == tick_step_events(old(self)@),
            r.1@ == tick_step_actions(old(self)@),
    {
        let mut events: Vec<Event> = Vec::new();
        let mut actions: Vec<BackendAction> = Vec::new();
        if self.has_exited {
            return (events, actions);
        }
        let ghost orig = old(self)@.requests;
        let mut done = false;
        let mut found_exit = false;
        while !done && !found_exit
            invariant
                self.has_exited == old(self).has_exited,
                self.is_first_resume == old(self).is_first_resume,
                self.context.windows() == old(self)@.windows,
                self.context.requests_open() == old(self)@.requests_open,
                !found_exit ==> actions@ + tick_actions(self.context.requests())
                    == tick_actions(orig),
                !found_exit ==> tick_exits(self.context.requests()) == tick_exits(orig),
                done ==> self.context.requests().len() == 0,
                found_exit ==> actions@ == tick_actions(orig) && tick_exits(orig),
            decreases self.context.requests().len() + (if done || found_exit {
                0int
            } else {
                1int
            }),
        {
            let ghost remaining = self.context.requests();
            match self.context.next_request() {
                None => {
                    done = true;
                },
                Some(request) => {
                    proof {
                        assert(remaining[0] == request);
                        assert(self.context.requests() == remaining.drop_first());
                    }
                    match request {
                        DynamicEvent::Window(context_event) => match context_event {
                            WindowContextEvent::Exited => {
                                found_exit = true;
                                actions.push(BackendAction::Exit);
                            },
                            WindowContextEvent::WindowCreated(id, settings) => {
                                actions.push(BackendAction::CreateWindow(id, settings));
                            },
                            WindowContextEvent::WindowClosed(id) => {
                                actions.push(BackendAction::DestroyWindow(id));
                            },
                            WindowContextEvent::WindowRedrawRequested(id) => {
                                actions.push(BackendAction::RedrawWindow(id));
                            },
                            WindowContextEvent::WindowRenameRequested(id, title) => {
                                actions.push(BackendAction::RetitleWindow(id, title));
                            },
                            WindowContextEvent::WindowFullscreenRequested(id, mode) => {
                                actions.push(BackendAction::FullscreenWindow(id, mode));
                            },
                            WindowContextEvent::WindowResized(_, _, _) => {},
                        },
                        _ => {},
                    }
                },
            }
        }
        if found_exit {
            let mut drained = false;
            while !drained
                invariant
                    self.has_exited == old(self).has_exited,
                    self.is_first_resume == old(self).is_first_resume,
                    self.context.windows() == old(self)@.windows,
                    self.context.requests_open() == old(self)@.requests_open,
                    drained ==> self.context.requests().len() == 0,
                decreases self.context.requests().len() + (if drained {
                    0int
                } else {
                    1int
                }),
            {
                match self.context.next_request() {
                    None => {
                        drained = true;
                    },
                    Some(_) => {},
                }
            }
            self.has_exited = true;
            self.context.close_requests();
            events.push(Event::Exited);
        } else {
            events.push(Event::EventsCleared);
        }
        proof {
            assert(self.context.requests() =~= Seq::<DynamicEvent>::empty());
            if found_exit {
                assert(events@ =~= tick_step_events(old(self)@));
            } else {
                assert(events@ =~= tick_step_events(old(self)@));
                assert(actions@ =~= tick_actions(orig));
            }
        }
        (events, actions)
    }

    /// A platform callback for one window: translate it for the frontend,
    /// and write a resize into the registry.  A callback for a window no
    /// longer in the registry is silently dropped — the race between a
    /// released handle and a callback in flight is expected and benign.
    pub fn on_window_event(&mut self, id: WindowId, event: NativeWindowEvent) -> (r: Option<Event>)
        requires
            old(self)@.wf(),
        ensures
            final(self)@ == window_event_step(old(self)@, id, event),
            final(self)@.wf(),
            r == window_event_result(old(self)@, id, event),
    {
        if self.has_exited {
            return None;
        }
        if !self.context.has_window(id) {
            return None;
        }
        match event {
            NativeWindowEvent::CloseRequested => Some(Event::WindowEvent(id, WindowEvent::Closed)),
            NativeWindowEvent::Resized(width, height) => {
                self.context.process_event(WindowContextEvent::WindowResized(id, width, height));
                Some(Event::WindowEvent(id, WindowEvent::Resized(width, height)))
            },
            NativeWindowEvent::RedrawRequested => Some(
                Event::WindowEvent(id, WindowEvent::RedrawRequested),
            ),
            NativeWindowEvent::Input(input) => Some(
                Event::WindowEvent(id, WindowEvent::Input(input)),
            ),
        }
    }

    /// The backend reports on a window it was asked to materialize.  A
    /// handle is recorded for a live window and dropped for a stale one;
    /// either way the frontend gets the window's `Created` event with the
    /// backend's result.
    pub fn notify_window_ready(
        &mut self,
        id: WindowId,
        result: Result<WindowHandle, WindowError>,
    ) -> (r: Option<Event>)
        requires
            old(self)@.wf(),
        ensures
            final(self)@ == ready_step(old(self)@, id, result),
            final(self)@.wf(),
            r == ready_result(old(self)@, id, result),
    {
        if self.has_exited {
            return None;
        }
        match result {
            Ok(handle) => {
                self.context.insert_window_handle(id, handle);
                Some(Event::WindowEvent(id, WindowEvent::Created(Ok(()))))
            },
            Err(error) => Some(Event::WindowEvent(id, WindowEvent::Created(Err(error)))),
        }
    }

    /// A loose input callback, not tied to a window: forwarded as-is.
    pub fn on_input(&mut self, input: Input) -> (r: Option<Event>)
        ensures
            final(self)@ == old(self)@,
            r == input_result(old(self)@, input),
    {
        if self.has_exited {
            None
        } else {
            Some(Event::Input(input))
        }
    }
}

/// Provides a way to configure the window system.
///
/// Create a new builder by calling [`init()`].
pub struct EventLoopBuilder {}

impl EventLoopBuilder {
    /// Create a new builder.
    pub fn new() -> (r: Self) {
        EventLoopBuilder {}
    }

    /// Initialize the window system: a fresh loop that has neither
    /// started nor exited, owning an empty registry and an open, empty
    /// request channel.
    pub fn build(self) -> (r: EventLoop)
        ensures
            r@.requests === Seq::empty(),
            r@.requests_open,
            r@.windows === Map::empty(),
            !r@.started,
            !r@.exited,
            r@.wf(),
    {
        EventLoop { context: WindowContext::new(), is_first_resume: true, has_exited: false }
    }
}

/// Initialize the window system.
pub fn init() -> (r: EventLoopBuilder) {
    EventLoopBuilder::new()
}

/// One invocation of a loop entry point by the backend.
pub enum LoopInput {
    Resumed,
    Tick,
    WindowEvent(WindowId, NativeWindowEvent),
    Input(Input),
    WindowReady(WindowId, Result<WindowHandle, WindowError>),
}

/// The loop state after one entry-point invocation.
pub open spec fn input_step(s: LoopState, input: LoopInput) -> LoopState {
    match input {
        LoopInput::Resumed => resumed_step(s),
        LoopInput::Tick => tick_step(s),
        LoopInput::WindowEvent(id, event) => window_event_step(s, id, event),
        LoopInput::Input(_) => s,
        LoopInput::WindowReady(id, result) => ready_step(s, id, result),
    }
}

/// The events one entry-point invocation emits.
pub open spec fn input_events(s: LoopState, input: LoopInput) -> Seq<Event> {
    match input {
        LoopInput::Resumed => match resumed_result(s) {
            Some(event) => seq![event],
            None => Seq::empty(),
        },
        LoopInput::Tick => tick_step_events(s),
        LoopInput::WindowEvent(id, event) => match window_event_result(s, id, event) {
            Some(event) => seq![event],
            None => Seq::empty(),
        },
        LoopInput::Input(input) => match input_result(s, input) {
            Some(event) => seq![event],
            None => Seq::empty(),
        },
        LoopInput::WindowReady(id, result) => match ready_result(s, id, result) {
            Some(event) => seq![event],
            None => Seq::empty(),
        },
    }
}

/// The loop state after a whole sequence of entry-point invocations.
pub open spec fn run_inputs(s: LoopState, inputs: Seq<LoopInput>) -> LoopState
    decreases inputs.len(),
{
    if inputs.len() == 0 {
        s
    } else {
        run_inputs(input_step(s, inputs[0]), inputs.drop_first())
    }
}

/// An exited loop never changes again, whatever the backend invokes.
pub proof fn lemma_exited_is_stable(s: LoopState, inputs: Seq<LoopInput>)
    requires
        s.exited,
    ensures
        run_inputs(s, inputs) == s,
    decreases inputs.len(),
{
    if inputs.len() > 0 {
        assert(input_step(s, inputs[0]) == s);
        lemma_exited_is_stable(s, inputs.drop_first());
    }
}

/// Exit is terminal: once the loop has exited, no sequence of further
/// entry-point invocations makes any of them emit an event — an exit
/// requested while the exit is being handled, or after it, is a silent
/// no-op.
pub proof fn lemma_exited_is_terminal(s: LoopState, inputs: Seq<LoopInput>, i: int)
    requires
        s.exited,
        0 <= i < inputs.len(),
    ensures
        input_events(run_inputs(s, inputs.take(i)), inputs[i]) === Seq::empty(),
{
    lemma_exited_is_stable(s, inputs.take(i));
    assert(run_inputs(s, inputs.take(i)) == s);
    assert(input_events(s, inputs[i]) =~= Seq::<Event>::empty());
}

} // verus!
