//! The events that carry data from a client's shell surface. Each is named
//! by the address at which the foreign runtime holds it.
use vstd::prelude::*;

verus! {

/// A request to move the shell surface.
#[derive(Clone, Copy, Debug, PartialEq, Eq, Structural)]
pub struct MoveEvent {
    pub event: usize,
}

/// A request to resize the shell surface.
#[derive(Clone, Copy, Debug, PartialEq, Eq, Structural)]
pub struct ResizeEvent {
    pub event: usize,
}

/// A request to make the shell surface fullscreen, or to end that.
#[derive(Clone, Copy, Debug, PartialEq, Eq, Structural)]
pub struct SetFullscreenEvent {
    pub event: usize,
}

/// A request to show the window menu.
#[derive(Clone, Copy, Debug, PartialEq, Eq, Structural)]
pub struct ShowWindowMenuEvent {
    pub event: usize,
}

impl MoveEvent {
    /// The event at the address `event`.
    pub fn from_ptr(event: usize) -> (e: Self)
        ensures
            e == (MoveEvent { event }),
    {
        MoveEvent { event }
    }
}

impl ResizeEvent {
    /// The event at the address `event`.
    pub fn from_ptr(event: usize) -> (e: Self)
        ensures
            e == (ResizeEvent { event }),
    {
        ResizeEvent { event }
    }
}

impl SetFullscreenEvent {
    /// The event at the address `event`.
    pub fn from_ptr(event: usize) -> (e: Self)
        ensures
            e == (SetFullscreenEvent { event }),
    {
        SetFullscreenEvent { event }
    }
}

impl ShowWindowMenuEvent {
    /// The event at the address `event`.
    pub fn from_ptr(event: usize) -> (e: Self)
        ensures
            e == (ShowWindowMenuEvent { event }),
    {
        ShowWindowMenuEvent { event }
    }
}

} // verus!
