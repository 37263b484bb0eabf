//! Window data: settings, identity, errors, and the per-window record that
//! the registry keeps.

use vstd::prelude::*;

verus! {

/// The fullscreen-mode for a window.
#[derive(Clone, Copy, Eq, PartialEq, Debug, Structural)]
pub enum FullscreenMode {
    Borderless,
}

/// The settings used by the window registry when creating a window.
#[derive(Eq, PartialEq, Debug)]
pub struct WindowSettings {
    pub title: String,
    pub size: (u32, u32),
    pub is_resizable: bool,
    pub is_visible: bool,
    pub fullscreen_mode: Option<FullscreenMode>,
}

impl WindowSettings {
    /// Set the window's title.
    pub fn with_title(self, title: &str) -> (r: Self)
        ensures
            r.title@ == title@,
            r.size == self.size,
            r.is_resizable == self.is_resizable,
            r.is_visible == self.is_visible,
            r.fullscreen_mode == self.fullscreen_mode,
    {
        WindowSettings { title: title.to_owned(), ..self }
    }

    /// Set the window's size.
    pub fn with_size(self, size: (u32, u32)) -> (r: Self)
        ensures
            r.title == self.title,
            r.size == size,
            r.is_resizable == self.is_resizable,
            r.is_visible == self.is_visible,
            r.fullscreen_mode == self.fullscreen_mode,
    {
        WindowSettings { size, ..self }
    }

    /// Set whether or not the window should be resizable.
    pub fn with_resizable(self, is_resizable: bool) -> (r: Self)
        ensures
            r.title == self.title,
            r.size == self.size,
            r.is_resizable == is_resizable,
            r.is_visible == self.is_visible,
            r.fullscreen_mode == self.fullscreen_mode,
    {
        WindowSettings { is_resizable, ..self }
    }

    /// Set whether or not the window should be visible.
    pub fn with_visible(self, is_visible: bool) -> (r: Self)
        ensures
            r.title == self.title,
            r.size == self.size,
            r.is_resizable == self.is_resizable,
            r.is_visible == is_visible,
            r.fullscreen_mode == self.fullscreen_mode,
    {
        WindowSettings { is_visible, ..self }
    }

    /// Set the fullscreen-mode.
    pub fn with_fullscreen_mode(self, fullscreen_mode: FullscreenMode) -> (r: Self)
        ensures
            r.title == self.title,
            r.size == self.size,
            r.is_resizable == self.is_resizable,
            r.is_visible == self.is_visible,
            r.fullscreen_mode == Some(fullscreen_mode),
    {
        WindowSettings { fullscreen_mode: Some(fullscreen_mode), ..self }
    }
}

impl Clone for WindowSettings {
    /// An exact copy of the settings.
    fn clone(&self) -> (r: Self)
        ensures
            r == *self,
    {
        WindowSettings {
            title: self.title.clone(),
            size: self.size,
            is_resizable: self.is_resizable,
            is_visible: self.is_visible,
            fullscreen_mode: self.fullscreen_mode,
        }
    }
}

impl Default for WindowSettings {
    /// The default settings: an untitled, resizable, visible, windowed
    /// 1280 by 720 window.
    fn default() -> (r: Self)
        ensures
            r.title@ == "Untitled"@,
            r.size == (1280u32, 720u32),
            r.is_resizable,
            r.is_visible,
            r.fullscreen_mode is None,
    {
        WindowSettings {
            title: "Untitled".to_owned(),
            size: (1280, 720),
            is_resizable: true,
            is_visible: true,
            fullscreen_mode: None,
        }
    }
}

/// A general-purpose error for the window system.
#[derive(Debug, PartialEq, Eq)]
pub enum WindowError {
    /// The window system could not be initialized.
    InitError(String),
    /// The operation is not supported by either the window system, or the
    /// current platform.
    UnsupportedError(String),
}

impl Clone for WindowError {
    /// An exact copy of the error.
    fn clone(&self) -> (r: Self)
        ensures
            r == *self,
    {
        match self {
            WindowError::InitError(message) => WindowError::InitError(message.clone()),
            WindowError::UnsupportedError(message) => WindowError::UnsupportedError(
                message.clone(),
            ),
        }
    }
}

/// The identity of a window: an opaque value minted when the window is
/// requested, stable for the window's whole life, and the sole key
/// correlating backend callbacks with registry entries.
#[derive(Clone, Copy, PartialEq, Eq, Hash, Debug, Structural)]
pub struct WindowId {
    pub bits: u128,
}

/// A platform window handle, carried opaquely: the backend pairs each token
/// with whatever native resource it stands for.
#[derive(Clone, Copy, PartialEq, Eq, Debug, Structural)]
pub struct WindowHandle {
    pub token: u64,
}

impl WindowHandle {
    /// Wrap a backend token as a handle.
    pub fn new(token: u64) -> (r: Self)
        ensures
            r.token == token,
    {
        WindowHandle { token }
    }
}

/// The record the registry keeps for one live window: its identity, its
/// settings, the platform handle once the backend has materialized the
/// window, and the count of outstanding user-held [`Window`] handles.
///
/// [`Window`]: crate::context::Window
#[derive(Debug)]
pub struct WindowState {
    pub id: WindowId,
    pub settings: WindowSettings,
    pub handle: Option<WindowHandle>,
    pub refs: u64,
}

impl WindowState {
    /// A fresh record for a just-requested window: no platform handle yet,
    /// and one outstanding user handle.
    pub fn new(id: WindowId, settings: WindowSettings) -> (r: Self)
        ensures
            r == (WindowState { id, settings, handle: None, refs: 1u64 }),
    {
        WindowState { id, settings, handle: None, refs: 1 }
    }

    /// The window's current size.  Until the backend reports otherwise this
    /// is the size the window was requested with.
    pub fn size(&self) -> (r: (u32, u32))
        ensures
            r == self.settings.size,
    {
        self.settings.size
    }

    /// Record a new size reported by the backend.
    pub fn resize(&mut self, width: u32, height: u32)
        ensures
            *final(self) == with_size(*old(self), width, height),
    {
        self.settings.size = (width, height);
    }

    /// The platform handle, if the backend has supplied one.
    pub fn handle(&self) -> (r: Option<WindowHandle>)
        ensures
            r == self.handle,
    {
        self.handle
    }

    /// Record the platform handle supplied by the backend.
    pub fn set_handle(&mut self, handle: WindowHandle)
        ensures
            *final(self) == with_handle(*old(self), handle),
    {
        self.handle = Some(handle);
    }
}

impl Clone for WindowState {
    /// An exact copy of the record.
    fn clone(&self) -> (r: Self)
        ensures
            r == *self,
    {
        WindowState {
            id: self.id,
            settings: self.settings.clone(),
            handle: self.handle,
            refs: self.refs,
        }
    }
}

/// `state` with its size replaced.
pub open spec fn with_size(state: WindowState, width: u32, height: u32) -> WindowState {
    WindowState {
        settings: WindowSettings { size: (width, height), ..state.settings },
        ..state
    }
}

/// `state` with its platform handle replaced.
pub open spec fn with_handle(state: WindowState, handle: WindowHandle) -> WindowState {
    WindowState { handle: Some(handle), ..state }
}

/// `state` with its handle count replaced.
pub open spec fn with_refs(state: WindowState, refs: u64) -> WindowState {
    WindowState { refs, ..state }
}

/// An event used for communication between the window registry and the
/// backend: requests travel from the frontend to the backend, and backend
/// observations travel back.
#[derive(PartialEq, Eq, Debug)]
pub enum WindowContextEvent {
    /// The frontend requests a new name for a window.  Handling this is
    /// optional: not all platforms support it.
    WindowRenameRequested(WindowId, String),
    /// A window should be redrawn.  Handling this is optional: not all
    /// platforms support it.
    WindowRedrawRequested(WindowId),
    /// The frontend requests a fullscreen-mode change for a window.
    /// Handling this is optional: not all platforms support it.
    WindowFullscreenRequested(WindowId, Option<FullscreenMode>),
    /// A window was resized.
    WindowResized(WindowId, u32, u32),
    /// A new window was created.
    WindowCreated(WindowId, WindowSettings),
    /// All user-held handles of a window were released, and the window
    /// should be closed.
    WindowClosed(WindowId),
    /// The main-loop should exit.
    Exited,
}

impl Clone for WindowContextEvent {
    /// An exact copy of the event.
    fn clone(&self) -> (r: Self)
        ensures
            r == *self,
    {
        match self {
            WindowContextEvent::WindowRenameRequested(id, title) => {
                WindowContextEvent::WindowRenameRequested(*id, title.clone())
            },
            WindowContextEvent::WindowRedrawRequested(id) => {
                WindowContextEvent::WindowRedrawRequested(*id)
            },
            WindowContextEvent::WindowFullscreenRequested(id, mode) => {
                WindowContextEvent::WindowFullscreenRequested(*id, *mode)
            },
            WindowContextEvent::WindowResized(id, width, height) => {
                WindowContextEvent::WindowResized(*id, *width, *height)
            },
            WindowContextEvent::WindowCreated(id, settings) => {
                WindowContextEvent::WindowCreated(*id, settings.clone())
            },
            WindowContextEvent::WindowClosed(id) => WindowContextEvent::WindowClosed(*id),
            WindowContextEvent::Exited => WindowContextEvent::Exited,
        }
    }
}

} // verus!
