//! The compositor context that every dispatch works on.
use vstd::prelude::*;
use crate::interest::InterestSet;
use crate::liveliness::{Registry, TokenState};
use crate::seat::{coherent, Seat, KEYBOARD_BIT, POINTER_BIT};
use crate::types::keyboard::KeyboardData;
use crate::types::pointer::PointerData;
use crate::handle::WeakHandle;

verus! {

/// The input devices that the compositor looks after, one interest set for
/// each class.
pub struct Inputs {
    pub pointers: InterestSet<PointerData>,
    pub keyboards: InterestSet<KeyboardData>,
}

/// What the compositor keeps between dispatches.
pub struct CompositorState {
    pub seat: Seat,
    pub inputs: Inputs,
}

/// How the compositor's session stands: whether a dispatch runs, whether the
/// event loop goes on, and the fault that ended it.
pub struct Session {
    /// Set for as long as a dispatch runs.
    lock: bool,
    /// The message of the fault that ended the session, if one did.
    panic_error: Option<String>,
    /// Cleared when the event loop was told to end.
    running: bool,
}

impl Session {
    /// The lock is set.
    pub closed spec fn locked(&self) -> bool {
        self.lock
    }

    /// The message of the fault that the session has recorded.
    pub closed spec fn fault(&self) -> Option<Seq<char>> {
        match self.panic_error {
            Some(message) => Some(message@),
            None => None,
        }
    }

    /// The event loop has not been told to end.
    pub closed spec fn running(&self) -> bool {
        self.running
    }

    /// A session that runs, unlocked and without a fault.
    pub fn new() -> (session: Self)
        ensures
            !session.locked(),
            session.running(),
            session.fault() is None,
    {
        Session { lock: false, panic_error: None, running: true }
    }

    pub fn is_locked(&self) -> (b: bool)
        ensures
            b == self.locked(),
    {
        self.lock
    }

    pub fn is_running(&self) -> (b: bool)
        ensures
            b == self.running(),
    {
        self.running
    }

    /// Whether the session has recorded a fault.
    pub fn has_fault(&self) -> (b: bool)
        ensures
            b == (self.fault() is Some),
    {
        self.panic_error.is_some()
    }

    /// Sets or clears the lock. Nothing else changes.
    pub fn set_lock(&mut self, val: bool)
        ensures
            final(self).locked() == val,
            final(self).fault() == old(self).fault(),
            final(self).running() == old(self).running(),
    {
        self.lock = val;
    }

    /// Records the fault that ends the session. Nothing else changes.
    pub fn save_panic_error(&mut self, message: String)
        ensures
            final(self).fault() == Some(message@),
            final(self).locked() == old(self).locked(),
            final(self).running() == old(self).running(),
    {
        self.panic_error = Some(message);
    }

    /// Tells the event loop to end. Nothing else changes.
    pub fn terminate(&mut self)
        ensures
            !final(self).running(),
            final(self).locked() == old(self).locked(),
            final(self).fault() == old(self).fault(),
    {
        self.running = false;
    }
}

/// The compositor: its session, the liveliness tokens of the foreign objects
/// that it has wrapped, and its state.
pub struct Compositor {
    pub session: Session,
    pub tokens: Registry,
    pub state: CompositorState,
}

impl Compositor {
    /// The compositor's lock is set.
    pub open spec fn locked(&self) -> bool {
        self.session.locked()
    }

    /// The message of the fault that the session has recorded.
    pub open spec fn fault(&self) -> Option<Seq<char>> {
        self.session.fault()
    }

    /// The event loop has not been told to end.
    pub open spec fn running(&self) -> bool {
        self.session.running()
    }

    /// The seat advertises the pointer capability exactly when there is a
    /// pointer, and the keyboard capability exactly when there is a keyboard.
    pub open spec fn coherent(&self) -> bool {
        &&& coherent(self.state.seat@, POINTER_BIT, self.state.inputs.pointers@.len())
        &&& coherent(self.state.seat@, KEYBOARD_BIT, self.state.inputs.keyboards@.len())
    }

    /// A compositor with nothing in it: unlocked, running, no token, no
    /// device, nothing advertised.
    pub fn new() -> (compositor: Self)
        ensures
            !compositor.locked(),
            compositor.running(),
            compositor.fault() is None,
            compositor.tokens@ == Seq::<TokenState>::empty(),
            compositor.state.seat@ == 0,
            compositor.state.inputs.pointers@ == Seq::<WeakHandle<PointerData>>::empty(),
            compositor.state.inputs.keyboards@ == Seq::<WeakHandle<KeyboardData>>::empty(),
            compositor.coherent(),
    {
        let compositor = Compositor {
            session: Session::new(),
            tokens: Registry::new(),
            state: CompositorState {
                seat: Seat::new(),
                inputs: Inputs { pointers: InterestSet::new(), keyboards: InterestSet::new() },
            },
        };
        assert(0u32 & POINTER_BIT != POINTER_BIT && 0u32 & KEYBOARD_BIT != KEYBOARD_BIT)
            by (bit_vector);
        compositor
    }

    pub fn is_locked(&self) -> (b: bool)
        ensures
            b == self.locked(),
    {
        self.session.is_locked()
    }

    pub fn is_running(&self) -> (b: bool)
        ensures
            b == self.running(),
    {
        self.session.is_running()
    }

    /// Sets or clears the compositor's lock. Nothing else changes.
    pub fn set_lock(&mut self, val: bool)
        ensures
            final(self).locked() == val,
            final(self).tokens == old(self).tokens,
            final(self).state == old(self).state,
            final(self).fault() == old(self).fault(),
            final(self).running() == old(self).running(),
    {
        self.session.set_lock(val);
    }

    /// Records the fault that ends the session. Nothing else changes.
    pub fn save_panic_error(&mut self, message: String)
        ensures
            final(self).fault() == Some(message@),
            final(self).locked() == old(self).locked(),
            final(self).tokens == old(self).tokens,
            final(self).state == old(self).state,
            final(self).running() == old(self).running(),
    {
        self.session.save_panic_error(message);
    }

    /// Tells the event loop to end. Nothing else changes.
    pub fn terminate(&mut self)
        ensures
            !final(self).running(),
            final(self).locked() == old(self).locked(),
            final(self).tokens == old(self).tokens,
            final(self).state == old(self).state,
            final(self).fault() == old(self).fault(),
    {
        self.session.terminate();
    }
}

} // verus!
