//! Dynamic events, and the main polling event-loop of the engine.
//!
//! Every value that travels on the shared channel is one variant of
//! [`DynamicEvent`], a closed sum of the event families the engine knows:
//! quit signals, frame boundaries, window events and input events.  A
//! consumer recovers the concrete family by matching; a non-matching
//! variant is simply "not this type", so independent modules can share one
//! bus without interfering.

use vstd::prelude::*;

use crate::channel::{EventQueue, ReceiverDroppedError, pop_model};
use crate::input::Input;
use crate::window::WindowContextEvent;

verus! {

/// A type-erased event: one value of any of the engine's event families.
#[derive(PartialEq, Eq, Debug)]
pub enum DynamicEvent {
    /// The engine has quit.
    Quit,
    /// All other events have been cleared, and a new tick is about to
    /// begin.
    EventsCleared,
    /// A window-system event.
    Window(WindowContextEvent),
    /// An input event.
    Input(Input),
}

impl Clone for DynamicEvent {
    /// An exact copy of the event.
    fn clone(&self) -> (r: Self)
        ensures
            r == *self,
    {
        match self {
            DynamicEvent::Quit => DynamicEvent::Quit,
            DynamicEvent::EventsCleared => DynamicEvent::EventsCleared,
            DynamicEvent::Window(event) => DynamicEvent::Window(event.clone()),
            DynamicEvent::Input(input) => DynamicEvent::Input(*input),
        }
    }
}

/// The state of a polling event-loop, as the contracts see it.
pub ghost struct LoopModel {
    /// The queued events, oldest first.
    pub pending: Seq<DynamicEvent>,
    /// Whether the receiving side of the queue is still live.
    pub open: bool,
    /// Whether a [`DynamicEvent::Quit`] has been returned: the terminal
    /// state.
    pub has_quit: bool,
}

/// What one poll returns on a loop in state `m`: `None` once the loop has
/// quit, the oldest queued event when there is one, and a fresh
/// [`DynamicEvent::EventsCleared`] when the queue is empty.
pub open spec fn poll_result(m: LoopModel) -> Option<DynamicEvent> {
    if m.has_quit {
        None
    } else if m.pending.len() > 0 {
        Some(m.pending[0])
    } else {
        Some(DynamicEvent::EventsCleared)
    }
}

/// The loop state after one poll: the returned event leaves the queue, and
/// returning a [`DynamicEvent::Quit`] moves the loop to its terminal state.
pub open spec fn poll_step(m: LoopModel) -> LoopModel {
    if m.has_quit {
        m
    } else if m.pending.len() > 0 {
        LoopModel {
            pending: m.pending.drop_first(),
            has_quit: m.pending[0] is Quit,
            ..m
        }
    } else {
        m
    }
}

/// The loop state after an event is sent to it.
pub open spec fn send_step(m: LoopModel, event: DynamicEvent) -> LoopModel {
    if m.open {
        LoopModel { pending: m.pending.push(event), ..m }
    } else {
        m
    }
}

/// The main polling event-loop.
///
/// The loop is a specialized event receiver: for as long as it is running
/// it returns an event on every poll, a queued one when there is one and
/// an [`DynamicEvent::EventsCleared`] frame boundary when there is none.
/// Once it has returned a [`DynamicEvent::Quit`] it is terminal: every
/// later poll returns `None`, whatever has been sent in the meantime.
pub struct EventLoop {
    queue: EventQueue<DynamicEvent>,
    has_quit: bool,
}

impl View for EventLoop {
    type V = LoopModel;

    closed spec fn view(&self) -> LoopModel {
        LoopModel {
            pending: self.queue.contents(),
            open: self.queue.is_open(),
            has_quit: self.has_quit,
        }
    }
}

impl EventLoop {
    /// Create a fresh loop with an empty queue.
    pub fn new() -> (r: Self)
        ensures
            r@.pending === Seq::empty(),
            r@.open,
            !r@.has_quit,
    {
        EventLoop { queue: EventQueue::new(), has_quit: false }
    }

    /// Whether the loop has returned [`DynamicEvent::Quit`] and is
    /// terminal.
    pub fn has_quit(&self) -> (r: bool)
        ensures
            r == self@.has_quit,
    {
        self.has_quit
    }

    /// Send an event to the loop, to be returned by a later poll.  Sending
    /// never affects whether the loop has quit.
    pub fn send_event(&mut self, event: DynamicEvent) -> (r: Result<(), ReceiverDroppedError>)
        ensures
            final(self)@ == send_step(old(self)@, event),
            r is Ok <==> old(self)@.open,
    {
        self.queue.push(event)
    }

    /// Poll for the next event; never blocks.
    ///
    /// Returns `None` exactly when the loop has quit.  Otherwise returns
    /// the oldest queued event, or [`DynamicEvent::EventsCleared`] when the
    /// queue is empty; returning [`DynamicEvent::Quit`] moves the loop to
    /// its terminal state.
    pub fn next_event(&mut self) -> (r: Option<DynamicEvent>)
        ensures
            r == poll_result(old(self)@),
            final(self)@ == poll_step(old(self)@),
    {
        if self.has_quit {
            None
        } else {
            match self.queue.pop() {
                Some(event) => {
                    if matches!(event, DynamicEvent::Quit) {
                        self.has_quit = true;
                    }
                    Some(event)
                },
                None => Some(DynamicEvent::EventsCleared),
            }
        }
    }
}

/// One interaction with a polling event-loop: either an event is sent to
/// it, or it is polled.
pub enum LoopOp {
    Send(DynamicEvent),
    Poll,
}

/// The loop state after one interaction.
pub open spec fn op_step(m: LoopModel, op: LoopOp) -> LoopModel {
    match op {
        LoopOp::Send(event) => send_step(m, event),
        LoopOp::Poll => poll_step(m),
    }
}

/// The loop state after a whole sequence of interactions.
pub open spec fn run_ops(m: LoopModel, ops: Seq<LoopOp>) -> LoopModel
    decreases ops.len(),
{
    if ops.len() == 0 {
        m
    } else {
        run_ops(op_step(m, ops[0]), ops.drop_first())
    }
}

/// Quitting is permanent: no interaction ever clears the terminal state.
pub proof fn lemma_quit_is_preserved(m: LoopModel, ops: Seq<LoopOp>)
    requires
        m.has_quit,
    ensures
        run_ops(m, ops).has_quit,
    decreases ops.len(),
{
    if ops.len() > 0 {
        assert(op_step(m, ops[0]).has_quit);
        lemma_quit_is_preserved(op_step(m, ops[0]), ops.drop_first());
    }
}

/// Once the loop has quit it is terminal: after any further interactions,
/// sends included, every poll returns `None` — in particular a quit
/// requested while a quit is being handled is a silent no-op.
pub proof fn lemma_quit_is_terminal(m: LoopModel, ops: Seq<LoopOp>)
    requires
        m.has_quit,
    ensures
        poll_result(run_ops(m, ops)) is None,
{
    lemma_quit_is_preserved(m, ops);
}

} // verus!
