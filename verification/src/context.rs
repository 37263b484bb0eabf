//! The window registry and the user-held window handles.
//!
//! A [`WindowContext`] owns the canonical record of every live window,
//! keyed by its minted identity, together with the request channel to the
//! backend.  A [`Window`] is a counted handle on one such record: handles
//! are duplicated with [`Window::clone_handle`] and given back with
//! [`Window::release`], and the registry removes its entry and pushes
//! exactly one `WindowClosed` notification when the last outstanding
//! handle is released.  The registry's own bookkeeping never counts
//! toward "still in use": only user-held handles do.

use std::collections::HashMap;

use vstd::prelude::*;

use crate::channel::{EventQueue, pop_model};
use crate::dynamic::DynamicEvent;
use crate::window::{
    FullscreenMode, WindowContextEvent, WindowHandle, WindowId, WindowSettings, WindowState,
    with_handle, with_refs, with_size,
};

verus! {

broadcast use vstd::std_specs::hash::group_hash_axioms;

/// Relies on `uuid::Uuid::new_v4`, which draws a random version-4
/// identifier; nothing is promised of the value.
#[verifier::external_body]
fn fresh_id_bits() -> u128 {
    uuid::Uuid::new_v4().as_u128()
}

/// Whether releasing one handle of `id` in registry `m` closes the
/// window: it does exactly when the entry exists and this is its last
/// outstanding handle.
pub open spec fn release_closes(m: Map<u128, WindowState>, id: WindowId) -> bool {
    m.contains_key(id.bits) && m[id.bits].refs <= 1
}

/// The registry after one handle of `id` is released: a missing entry is
/// left alone (a stale release is a benign no-op), an entry with other
/// outstanding handles has its count lowered, and an entry whose last
/// handle this was is removed.
pub open spec fn release_step(m: Map<u128, WindowState>, id: WindowId) -> Map<u128, WindowState> {
    if !m.contains_key(id.bits) {
        m
    } else if m[id.bits].refs > 1 {
        m.insert(id.bits, with_refs(m[id.bits], (m[id.bits].refs - 1) as u64))
    } else {
        m.remove(id.bits)
    }
}

/// The registry after one handle of `id` is duplicated.
pub open spec fn clone_step(m: Map<u128, WindowState>, id: WindowId) -> Map<u128, WindowState> {
    m.insert(id.bits, with_refs(m[id.bits], (m[id.bits].refs + 1) as u64))
}

/// The registry after a backend observation is processed: a resize of a
/// live window is written into its record, and everything else — a resize
/// of a window already gone included — leaves the registry unchanged.
pub open spec fn process_step(m: Map<u128, WindowState>, event: WindowContextEvent) -> Map<
    u128,
    WindowState,
> {
    match event {
        WindowContextEvent::WindowResized(id, width, height) => {
            if m.contains_key(id.bits) {
                m.insert(id.bits, with_size(m[id.bits], width, height))
            } else {
                m
            }
        },
        _ => m,
    }
}

/// The registry after the backend supplies a platform handle for `id`: it
/// is written into a live entry, and dropped when the window is already
/// gone.
pub open spec fn insert_handle_step(
    m: Map<u128, WindowState>,
    id: WindowId,
    handle: WindowHandle,
) -> Map<u128, WindowState> {
    if m.contains_key(id.bits) {
        m.insert(id.bits, with_handle(m[id.bits], handle))
    } else {
        m
    }
}

/// A link to the window system: the registry of live windows plus the
/// request channel to the backend.
pub struct WindowContext {
    states: HashMap<u128, WindowState>,
    requests: EventQueue<DynamicEvent>,
}

impl WindowContext {
    /// The registry: each live window's record, keyed by its identity.
    pub closed spec fn windows(self) -> Map<u128, WindowState> {
        self.states@
    }

    /// The requests queued for the backend, oldest first.
    pub closed spec fn requests(self) -> Seq<DynamicEvent> {
        self.requests.contents()
    }

    /// Whether the backend is still receiving requests.
    pub closed spec fn requests_open(self) -> bool {
        self.requests.is_open()
    }

    /// Each record is filed under its own identity.
    pub open spec fn wf(self) -> bool {
        forall|bits: u128|
            self.windows().contains_key(bits) ==> (#[trigger] self.windows()[bits]).id.bits == bits
    }

    /// An empty registry with an open request channel.
    pub fn new() -> (r: Self)
        ensures
            r.windows() === Map::empty(),
            r.requests() === Seq::empty(),
            r.requests_open(),
            r.wf(),
    {
        WindowContext { states: HashMap::new(), requests: EventQueue::new() }
    }

    /// Create a new window: mint an identity, file a record holding the
    /// requested settings with one outstanding handle and no platform
    /// handle yet, push a `WindowCreated` request so the backend can
    /// materialize the window, and return the handle.
    pub fn create_window(&mut self, settings: WindowSettings) -> (r: Window)
        requires
            old(self).wf(),
        ensures
            final(self).wf(),
            final(self).windows() == old(self).windows().insert(
                r.spec_id().bits,
                (WindowState { id: r.spec_id(), settings: settings, handle: None, refs: 1u64 }),
            ),
            old(self).requests_open() ==> final(self).requests() == old(self).requests().push(
                DynamicEvent::Window(WindowContextEvent::WindowCreated(r.spec_id(), settings)),
            ),
            !old(self).requests_open() ==> final(self).requests() == old(self).requests(),
            final(self).requests_open() == old(self).requests_open(),
    {
        let bits = fresh_id_bits();
        let id = WindowId { bits };
        let state = WindowState::new(id, settings.clone());
        self.states.insert(bits, state);
        let _ = self.requests.push(
            DynamicEvent::Window(WindowContextEvent::WindowCreated(id, settings)),
        );
        Window { id }
    }

    /// Request that the main-loop exit, by pushing an `Exited` request for
    /// the backend to observe on its next drain.
    pub fn exit(&mut self)
        ensures
            final(self).windows() == old(self).windows(),
            old(self).requests_open() ==> final(self).requests() == old(self).requests().push(
                DynamicEvent::Window(WindowContextEvent::Exited),
            ),
            !old(self).requests_open() ==> final(self).requests() == old(self).requests(),
            final(self).requests_open() == old(self).requests_open(),
    {
        let _ = self.requests.push(DynamicEvent::Window(WindowContextEvent::Exited));
    }

    /// Process a backend observation: a resize of a live window is written
    /// into its record; anything else, a stale resize included, is a
    /// benign no-op.
    pub fn process_event(&mut self, event: WindowContextEvent)
        requires
            old(self).wf(),
        ensures
            final(self).wf(),
            final(self).windows() == process_step(old(self).windows(), event),
            final(self).requests() == old(self).requests(),
            final(self).requests_open() == old(self).requests_open(),
    {
        match event {
            WindowContextEvent::WindowResized(id, width, height) => {
                match self.states.remove(&id.bits) {
                    Some(state) => {
                        let mut state = state;
                        state.resize(width, height);
                        self.states.insert(id.bits, state);
                        proof {
                            assert(final(self).windows() =~= process_step(
                                old(self).windows(),
                                event,
                            ));
                        }
                    },
                    None => {},
                }
            },
            _ => {},
        }
    }

    /// Record the platform handle the backend created for `id`; dropped
    /// when the window is already gone.
    pub fn insert_window_handle(&mut self, id: WindowId, handle: WindowHandle)
        requires
            old(self).wf(),
        ensures
            final(self).wf(),
            final(self).windows() == insert_handle_step(old(self).windows(), id, handle),
            final(self).requests() == old(self).requests(),
            final(self).requests_open() == old(self).requests_open(),
    {
        match self.states.remove(&id.bits) {
            Some(state) => {
                let mut state = state;
                state.set_handle(handle);
                self.states.insert(id.bits, state);
                proof {
                    assert(final(self).windows() =~= insert_handle_step(
                        old(self).windows(),
                        id,
                        handle,
                    ));
                }
            },
            None => {},
        }
    }

    /// The number of live windows in the registry.
    pub fn window_count(&self) -> (r: usize)
        ensures
            r == self.windows().len(),
    {
        self.states.len()
    }

    /// Whether `id` names a live window.
    pub fn has_window(&self, id: WindowId) -> (r: bool)
        ensures
            r == self.windows().contains_key(id.bits),
    {
        self.states.contains_key(&id.bits)
    }

    /// Dequeue the oldest request for the backend, or `None` at once when
    /// there is none; never blocks.
    pub fn next_request(&mut self) -> (r: Option<DynamicEvent>)
        ensures
            r == pop_model(old(self).requests()).0,
            final(self).requests() == pop_model(old(self).requests()).1,
            final(self).windows() == old(self).windows(),
            final(self).requests_open() == old(self).requests_open(),
    {
        self.requests.pop()
    }

    /// Release the receiving side of the request channel: every later
    /// request is absorbed rather than queued.
    pub(crate) fn close_requests(&mut self)
        ensures
            final(self).windows() == old(self).windows(),
            final(self).requests() == old(self).requests(),
            !final(self).requests_open(),
    {
        self.requests.close();
    }
}

/// A user-held handle on one window.
///
/// Handles are counted: duplicating one with [`Window::clone_handle`]
/// raises the window's count, and [`Window::release`] lowers it, closing
/// the window when the last handle goes.  Two handles are equal exactly
/// when they name the same window.
#[derive(PartialEq, Eq, Debug, Structural)]
pub struct Window {
    id: WindowId,
}

impl Window {
    /// The identity of the window this handle names.
    pub closed spec fn spec_id(self) -> WindowId {
        self.id
    }

    /// Get the identity of the window.
    pub fn id(&self) -> (r: WindowId)
        ensures
            r == self.spec_id(),
    {
        self.id
    }

    /// The current size of the window: the size it was requested with,
    /// until a backend resize observation overwrites it.
    pub fn size(&self, context: &WindowContext) -> (r: (u32, u32))
        requires
            context.windows().contains_key(self.spec_id().bits),
        ensures
            r == context.windows()[self.spec_id().bits].settings.size,
    {
        match context.states.get(&self.id.bits) {
            Some(state) => state.size(),
            None => vstd::pervasive::unreached(),
        }
    }

    /// The window's current fullscreen-mode, if it is in full-screen.
    pub fn fullscreen_mode(&self, context: &WindowContext) -> (r: Option<FullscreenMode>)
        requires
            context.windows().contains_key(self.spec_id().bits),
        ensures
            r == context.windows()[self.spec_id().bits].settings.fullscreen_mode,
    {
        match context.states.get(&self.id.bits) {
            Some(state) => state.settings.fullscreen_mode,
            None => vstd::pervasive::unreached(),
        }
    }

    /// The window's platform handle, once the backend has materialized it.
    pub fn handle(&self, context: &WindowContext) -> (r: Option<WindowHandle>)
        requires
            context.windows().contains_key(self.spec_id().bits),
        ensures
            r == context.windows()[self.spec_id().bits].handle,
    {
        match context.states.get(&self.id.bits) {
            Some(state) => state.handle(),
            None => vstd::pervasive::unreached(),
        }
    }

    /// Request a new title for the window.  The request travels to the
    /// backend as an event; nothing is written directly.
    pub fn set_title(&self, context: &mut WindowContext, new_title: &str)
        ensures
            final(context).windows() == old(context).windows(),
            final(context).requests_open() == old(context).requests_open(),
            old(context).requests_open() ==> {
                &&& final(context).requests().len() == old(context).requests().len() + 1
                &&& final(context).requests().drop_last() == old(context).requests()
                &&& final(context).requests().last() matches DynamicEvent::Window(
                    WindowContextEvent::WindowRenameRequested(id, title),
                ) && id == self.spec_id() && title@ == new_title@
            },
            !old(context).requests_open() ==> final(context).requests() == old(
                context,
            ).requests(),
    {
        let event = DynamicEvent::Window(
            WindowContextEvent::WindowRenameRequested(self.id, new_title.to_owned()),
        );
        let _ = context.requests.push(event);
        proof {
            if old(context).requests_open() {
                assert(final(context).requests().drop_last() =~= old(context).requests());
            }
        }
    }

    /// Request a fullscreen-mode change for the window.  The request
    /// travels to the backend as an event; nothing is written directly.
    pub fn set_fullscreen_mode(
        &self,
        context: &mut WindowContext,
        fullscreen_mode: Option<FullscreenMode>,
    )
        ensures
            final(context).windows() == old(context).windows(),
            final(context).requests_open() == old(context).requests_open(),
            old(context).requests_open() ==> final(context).requests() == old(
                context,
            ).requests().push(
                DynamicEvent::Window(
                    WindowContextEvent::WindowFullscreenRequested(
                        self.spec_id(),
                        fullscreen_mode,
                    ),
                ),
            ),
            !old(context).requests_open() ==> final(context).requests() == old(
                context,
            ).requests(),
    {
        let _ = context.requests.push(
            DynamicEvent::Window(
                WindowContextEvent::WindowFullscreenRequested(self.id, fullscreen_mode),
            ),
        );
    }

    /// Request a redraw of the window.
    pub fn redraw(&self, context: &mut WindowContext)
        ensures
            final(context).windows() == old(context).windows(),
            final(context).requests_open() == old(context).requests_open(),
            old(context).requests_open() ==> final(context).requests() == old(
                context,
            ).requests().push(
                DynamicEvent::Window(WindowContextEvent::WindowRedrawRequested(self.spec_id())),
            ),
            !old(context).requests_open() ==> final(context).requests() == old(
                context,
            ).requests(),
    {
        let _ = context.requests.push(
            DynamicEvent::Window(WindowContextEvent::WindowRedrawRequested(self.id)),
        );
    }

    /// Duplicate this handle, raising the window's outstanding-handle
    /// count.  Duplication alone never closes a window or removes its
    /// registry entry.
    pub fn clone_handle(&self, context: &mut WindowContext) -> (r: Window)
        requires
            old(context).wf(),
            old(context).windows().contains_key(self.spec_id().bits),
            old(context).windows()[self.spec_id().bits].refs < u64::MAX,
        ensures
            r.spec_id() == self.spec_id(),
            final(context).wf(),
            final(context).windows() == clone_step(old(context).windows(), self.spec_id()),
            final(context).requests() == old(context).requests(),
            final(context).requests_open() == old(context).requests_open(),
    {
        match context.states.remove(&self.id.bits) {
            Some(state) => {
                let mut state = state;
                state.refs = state.refs + 1;
                context.states.insert(self.id.bits, state);
                proof {
                    assert(final(context).windows() =~= clone_step(
                        old(context).windows(),
                        self.spec_id(),
                    ));
                }
            },
            None => {},
        }
        Window { id: self.id }
    }

    /// Give this handle back.  Releasing a handle of a window that still
    /// has others outstanding only lowers the count; releasing the last
    /// one removes the registry entry and pushes exactly one
    /// `WindowClosed` notification.  Releasing a handle of a window
    /// already gone is a benign no-op.
    pub fn release(self, context: &mut WindowContext)
        requires
            old(context).wf(),
        ensures
            final(context).wf(),
            final(context).windows() == release_step(old(context).windows(), self.spec_id()),
            final(context).requests_open() == old(context).requests_open(),
            release_closes(old(context).windows(), self.spec_id()) && old(
                context,
            ).requests_open() ==> final(context).requests() == old(context).requests().push(
                DynamicEvent::Window(WindowContextEvent::WindowClosed(self.spec_id())),
            ),
            !(release_closes(old(context).windows(), self.spec_id()) && old(
                context,
            ).requests_open()) ==> final(context).requests() == old(context).requests(),
    {
        match context.states.remove(&self.id.bits) {
            Some(state) => {
                if state.refs > 1 {
                    let mut state = state;
                    state.refs = state.refs - 1;
                    context.states.insert(self.id.bits, state);
                    proof {
                        assert(final(context).windows() =~= release_step(
                            old(context).windows(),
                            self.spec_id(),
                        ));
                    }
                } else {
                    let _ = context.requests.push(
                        DynamicEvent::Window(WindowContextEvent::WindowClosed(self.id)),
                    );
                }
            },
            None => {},
        }
    }
}

/// The registry after a handle of `id` is duplicated `k` times, one at a
/// time.
pub open spec fn clone_steps(m: Map<u128, WindowState>, id: WindowId, k: nat) -> Map<
    u128,
    WindowState,
>
    decreases k,
{
    if k == 0 {
        m
    } else {
        clone_steps(clone_step(m, id), id, (k - 1) as nat)
    }
}

/// Duplicating a handle any number of times never removes the window's
/// registry entry: it only raises the outstanding-handle count, leaving
/// the record otherwise intact.  (By [`Window::clone_handle`]'s contract,
/// duplication pushes no notification either.)
pub proof fn lemma_clones_never_close(m: Map<u128, WindowState>, id: WindowId, k: nat)
    requires
        m.contains_key(id.bits),
        m[id.bits].refs + k <= u64::MAX,
    ensures
        clone_steps(m, id, k).contains_key(id.bits),
        clone_steps(m, id, k)[id.bits] == with_refs(m[id.bits], (m[id.bits].refs + k) as u64),
    decreases k,
{
    if k == 0 {
        assert(with_refs(m[id.bits], m[id.bits].refs) == m[id.bits]);
    } else {
        let m1 = clone_step(m, id);
        assert(m1[id.bits] == with_refs(m[id.bits], (m[id.bits].refs + 1) as u64));
        lemma_clones_never_close(m1, id, (k - 1) as nat);
        assert(with_refs(m1[id.bits], (m1[id.bits].refs + (k - 1)) as u64) == with_refs(
            m[id.bits],
            (m[id.bits].refs + k) as u64,
        ));
    }
}

/// The registry after `k` handles of `id` are released, one at a time.
pub open spec fn release_steps(m: Map<u128, WindowState>, id: WindowId, k: nat) -> Map<
    u128,
    WindowState,
>
    decreases k,
{
    if k == 0 {
        m
    } else {
        release_steps(release_step(m, id), id, (k - 1) as nat)
    }
}

/// How many `WindowClosed` notifications releasing `k` handles of `id`
/// emits.
pub open spec fn closes_in_releases(m: Map<u128, WindowState>, id: WindowId, k: nat) -> nat
    decreases k,
{
    if k == 0 {
        0
    } else {
        (if release_closes(m, id) {
            1nat
        } else {
            0nat
        }) + closes_in_releases(release_step(m, id), id, (k - 1) as nat)
    }
}

/// Releasing handles of a window that is not in the registry never
/// changes the registry and never emits a close notification.
pub proof fn lemma_release_stale_is_noop(m: Map<u128, WindowState>, id: WindowId, k: nat)
    requires
        !m.contains_key(id.bits),
    ensures
        release_steps(m, id, k) == m,
        closes_in_releases(m, id, k) == 0,
    decreases k,
{
    if k > 0 {
        lemma_release_stale_is_noop(m, id, (k - 1) as nat);
    }
}

/// The close notification fires exactly once, and only on the last
/// outstanding handle: releasing fewer handles than are outstanding keeps
/// the window's record — with its settings and platform handle intact —
/// and emits no `WindowClosed`; releasing the last one removes the record
/// and emits exactly one `WindowClosed`, however many further stale
/// releases follow.
pub proof fn lemma_close_fires_exactly_once(m: Map<u128, WindowState>, id: WindowId, k: nat)
    requires
        m.contains_key(id.bits),
        m[id.bits].refs >= 1,
    ensures
        k < m[id.bits].refs ==> {
            &&& closes_in_releases(m, id, k) == 0
            &&& release_steps(m, id, k).contains_key(id.bits)
            &&& release_steps(m, id, k)[id.bits] == with_refs(
                m[id.bits],
                (m[id.bits].refs - k) as u64,
            )
        },
        k >= m[id.bits].refs ==> {
            &&& closes_in_releases(m, id, k) == 1
            &&& !release_steps(m, id, k).contains_key(id.bits)
        },
    decreases k,
{
    if k == 0 {
        assert(release_steps(m, id, 0) == m);
        assert(with_refs(m[id.bits], m[id.bits].refs) == m[id.bits]);
    } else {
        let m1 = release_step(m, id);
        if m[id.bits].refs > 1 {
            assert(!release_closes(m, id));
            assert(m1.contains_key(id.bits));
            assert(m1[id.bits] == with_refs(m[id.bits], (m[id.bits].refs - 1) as u64));
            lemma_close_fires_exactly_once(m1, id, (k - 1) as nat);
            assert(with_refs(m1[id.bits], (m1[id.bits].refs - (k - 1)) as u64) == with_refs(
                m[id.bits],
                (m[id.bits].refs - k) as u64,
            ));
        } else {
            assert(release_closes(m, id));
            assert(m1 == m.remove(id.bits));
            assert(!m1.contains_key(id.bits));
            lemma_release_stale_is_noop(m1, id, (k - 1) as nat);
        }
    }
}

} // verus!
