use vstd::prelude::*;

verus! {

/// The keys that the library reacts to.
#[derive(Clone, Copy, Debug, PartialEq, Eq, Structural)]
pub enum Key {
    Escape,
    Other,
}

/// An input event of the window system.
#[derive(Clone, Copy, Debug, PartialEq, Eq, Structural)]
pub enum WindowEvent {
    /// The window was asked to close.
    Closed,
    /// The framebuffer now has this width and height, in device pixels.
    Resized(u32, u32),
    /// A key was pressed or released; the key, where the system names one.
    KeyboardInput(Option<Key>),
    /// The pointer moved to this position, in device pixels.
    MouseMoved(i32, i32),
    /// Any other event.
    Other,
}

/// Whether `event` ends the run loop: a close request or the escape key.
pub open spec fn ends_loop(event: WindowEvent) -> bool {
    match event {
        WindowEvent::Closed => true,
        WindowEvent::KeyboardInput(Some(Key::Escape)) => true,
        _ => false,
    }
}

impl WindowEvent {
    /// Whether this event ends the run loop.
    pub fn is_quit(&self) -> (r: bool)
        ensures
            r == ends_loop(*self),
    {
        match self {
            WindowEvent::Closed => true,
            WindowEvent::KeyboardInput(Some(Key::Escape)) => true,
            _ => false,
        }
    }
}

} // verus!
