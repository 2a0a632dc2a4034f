//! The handler for the events of a client's shell surface, and the bracket
//! that calls it.
//!
//! Every event goes the same way: the lock of the compositor and the locks of
//! the shell surface and of its surface are set, the handler's method for the
//! event is called once, and the locks are cleared again, the last one set
//! first. While the locks are set, an upgrade of a weak handle to one of the
//! two resources is found out as a second borrow.
use vstd::prelude::*;
use crate::compositor::Compositor;
use crate::handle::{status_of, HandleStatus};
use crate::liveliness::{alive, borrowed, with_flag, Tokens};
use crate::types::surface::{Surface, XdgV6ShellSurface};
use crate::xdg_shell_v6_events::{MoveEvent, ResizeEvent, SetFullscreenEvent, ShowWindowMenuEvent};

verus! {

/// Where a dispatch stands.
#[derive(Clone, Copy, Debug, PartialEq, Eq, Structural)]
pub enum LockState {
    /// No lock is set: no dispatch runs.
    Idle,
    /// All locks are set: the handler may run.
    Locked,
    /// The locks of the resources are cleared, the lock of the compositor is
    /// still set.
    Unlocking,
}

/// The state that the three locks show: the lock of the compositor, and the
/// flags of the tokens `shell_surface` and `surface`. `None` where they show
/// no state of a dispatch.
pub open spec fn lock_state_of(locked: bool, tokens: Tokens, shell_surface: usize, surface: usize)
    -> Option<LockState> {
    if !locked && !borrowed(tokens, shell_surface) && !borrowed(tokens, surface) {
        Some(LockState::Idle)
    } else if locked && borrowed(tokens, shell_surface) && borrowed(tokens, surface) {
        Some(LockState::Locked)
    } else if locked && !borrowed(tokens, shell_surface) && !borrowed(tokens, surface) {
        Some(LockState::Unlocking)
    } else {
        None
    }
}

/// The tokens after the flags of `shell_surface` and of `surface` were set,
/// in this order.
pub open spec fn resources_locked(tokens: Tokens, shell_surface: usize, surface: usize) -> Tokens {
    with_flag(with_flag(tokens, shell_surface, true), surface, true)
}

/// The tokens after the flags of `surface` and of `shell_surface` were
/// cleared, in this order.
pub open spec fn resources_unlocked(tokens: Tokens, shell_surface: usize, surface: usize)
    -> Tokens {
    with_flag(with_flag(tokens, surface, false), shell_surface, false)
}

/// A handler may run: both resources exist and all three locks are set.
pub open spec fn dispatching(
    compositor: Compositor,
    surface: Surface,
    shell_surface: XdgV6ShellSurface,
) -> bool {
    &&& surface.valid(compositor.tokens@)
    &&& shell_surface.valid(compositor.tokens@)
    &&& lock_state_of(
        compositor.locked(),
        compositor.tokens@,
        shell_surface.token().unwrap(),
        surface.token().unwrap(),
    ) == Some(LockState::Locked)
}

/// What every handler owes the bracket when it returns: the two resources
/// are the ones it was given, and they still exist.
pub open spec fn handled(
    surface_before: Surface,
    shell_surface_before: XdgV6ShellSurface,
    compositor: Compositor,
    surface: Surface,
    shell_surface: XdgV6ShellSurface,
) -> bool {
    &&& surface == surface_before
    &&& shell_surface == shell_surface_before
    &&& surface.valid(compositor.tokens@)
    &&& shell_surface.valid(compositor.tokens@)
}

/// Handles the events of a client's shell surface. Every method does nothing
/// unless the handler says otherwise.
pub trait XdgV6ShellHandler: Sized {
    /// Called when the surface has committed a request.
    fn on_commit(
        &mut self,
        compositor: &mut Compositor,
        surface: &mut Surface,
        shell_surface: &mut XdgV6ShellSurface,
    )
        requires
            dispatching(*old(compositor), *old(surface), *old(shell_surface)),
        ensures
            handled(
                *old(surface),
                *old(shell_surface),
                *final(compositor),
                *final(surface),
                *final(shell_surface),
            ),
    {
    }

    /// Called when the shell surface is destroyed, by the user for one.
    fn destroy(
        &mut self,
        compositor: &mut Compositor,
        surface: &mut Surface,
        shell_surface: &mut XdgV6ShellSurface,
    )
        requires
            dispatching(*old(compositor), *old(surface), *old(shell_surface)),
        ensures
            handled(
                *old(surface),
                *old(shell_surface),
                *final(compositor),
                *final(surface),
                *final(shell_surface),
            ),
    {
    }

    /// Called when the client did not answer a ping in time.
    ///
    /// This usually means that something is wrong with the client.
    fn ping_timeout(
        &mut self,
        compositor: &mut Compositor,
        surface: &mut Surface,
        shell_surface: &mut XdgV6ShellSurface,
    )
        requires
            dispatching(*old(compositor), *old(surface), *old(shell_surface)),
        ensures
            handled(
                *old(surface),
                *old(shell_surface),
                *final(compositor),
                *final(surface),
                *final(shell_surface),
            ),
    {
    }

    /// Called when a new popup appears in the tree of the shell surface.
    fn new_popup(
        &mut self,
        compositor: &mut Compositor,
        surface: &mut Surface,
        shell_surface: &mut XdgV6ShellSurface,
    )
        requires
            dispatching(*old(compositor), *old(surface), *old(shell_surface)),
        ensures
            handled(
                *old(surface),
                *old(shell_surface),
                *final(compositor),
                *final(surface),
                *final(shell_surface),
            ),
    {
    }

    /// Called when the client asks to maximize the shell surface.
    fn maximize_request(
        &mut self,
        compositor: &mut Compositor,
        surface: &mut Surface,
        shell_surface: &mut XdgV6ShellSurface,
    )
        requires
            dispatching(*old(compositor), *old(surface), *old(shell_surface)),
        ensures
            handled(
                *old(surface),
                *old(shell_surface),
                *final(compositor),
                *final(surface),
                *final(shell_surface),
            ),
    {
    }

    /// Called when the client asks to minimize the shell surface.
    fn minimize_request(
        &mut self,
        compositor: &mut Compositor,
        surface: &mut Surface,
        shell_surface: &mut XdgV6ShellSurface,
    )
        requires
            dispatching(*old(compositor), *old(surface), *old(shell_surface)),
        ensures
            handled(
                *old(surface),
                *old(shell_surface),
                *final(compositor),
                *final(surface),
                *final(shell_surface),
            ),
    {
    }

    /// Called when the client asks to move the shell surface.
    fn move_request(
        &mut self,
        compositor: &mut Compositor,
        surface: &mut Surface,
        shell_surface: &mut XdgV6ShellSurface,
        event: &mut MoveEvent,
    )
        requires
            dispatching(*old(compositor), *old(surface), *old(shell_surface)),
        ensures
            handled(
                *old(surface),
                *old(shell_surface),
                *final(compositor),
                *final(surface),
                *final(shell_surface),
            ),
    {
    }

    /// Called when the client asks to resize the shell surface.
    fn resize_request(
        &mut self,
        compositor: &mut Compositor,
        surface: &mut Surface,
        shell_surface: &mut XdgV6ShellSurface,
        event: &mut ResizeEvent,
    )
        requires
            dispatching(*old(compositor), *old(surface), *old(shell_surface)),
        ensures
            handled(
                *old(surface),
                *old(shell_surface),
                *final(compositor),
                *final(surface),
                *final(shell_surface),
            ),
    {
    }

    /// Called when the client asks to make the shell surface fullscreen.
    fn fullscreen_request(
        &mut self,
        compositor: &mut Compositor,
        surface: &mut Surface,
        shell_surface: &mut XdgV6ShellSurface,
        event: &mut SetFullscreenEvent,
    )
        requires
            dispatching(*old(compositor), *old(surface), *old(shell_surface)),
        ensures
            handled(
                *old(surface),
                *old(shell_surface),
                *final(compositor),
                *final(surface),
                *final(shell_surface),
            ),
    {
    }

    /// Called when the client asks to show the window menu.
    fn show_window_menu_request(
        &mut self,
        compositor: &mut Compositor,
        surface: &mut Surface,
        shell_surface: &mut XdgV6ShellSurface,
        event: &mut ShowWindowMenuEvent,
    )
        requires
            dispatching(*old(compositor), *old(surface), *old(shell_surface)),
        ensures
            handled(
                *old(surface),
                *old(shell_surface),
                *final(compositor),
                *final(surface),
                *final(shell_surface),
            ),
    {
    }

}

/// A client's shell surface with its surface and the handler of its events.
pub struct XdgV6Shell<H: XdgV6ShellHandler> {
    pub shell_surface: XdgV6ShellSurface,
    pub surface: Surface,
    pub manager: H,
}

impl<H: XdgV6ShellHandler> XdgV6Shell<H> {
    /// Both resources own their tokens and exist.
    pub open spec fn ready(&self, compositor: Compositor) -> bool {
            &&& self.surface.valid(compositor.tokens@)
        &&& self.shell_surface.valid(compositor.tokens@)
    }

    /// Where a dispatch for this shell surface stands.
    pub open spec fn lock_state(&self, compositor: Compositor) -> Option<LockState> {
        lock_state_of(
            compositor.locked(),
            compositor.tokens@,
            self.shell_surface.token().unwrap(),
            self.surface.token().unwrap(),
        )
    }

    /// `after` is `before` with all three locks set, and nothing else
    /// changed.
    pub open spec fn locked_from(&self, before: Compositor, after: Compositor) -> bool {
        &&& after.locked()
        &&& after.tokens@ == resources_locked(
            before.tokens@,
            self.shell_surface.token().unwrap(),
            self.surface.token().unwrap(),
        )
        &&& after.state == before.state
        &&& after.fault() == before.fault()
        &&& after.running() == before.running()
    }

    /// `after` is `before` with all three locks cleared, and nothing else
    /// changed.
    pub open spec fn unlocked_from(&self, before: Compositor, after: Compositor) -> bool {
        &&& !after.locked()
        &&& after.tokens@ == resources_unlocked(
            before.tokens@,
            self.shell_surface.token().unwrap(),
            self.surface.token().unwrap(),
        )
        &&& after.state == before.state
        &&& after.fault() == before.fault()
        &&& after.running() == before.running()
    }

    /// What the bracket hands to the handler when the dispatch starts from
    /// the compositor `before`: the handler itself, the two resources, and
    /// the compositor with all locks set.
    pub open spec fn hands_over(
        &self,
        before: Compositor,
        manager: H,
        compositor: Compositor,
        surface: Surface,
        shell_surface: XdgV6ShellSurface,
    ) -> bool {
        &&& manager == self.manager
        &&& surface == self.surface
        &&& shell_surface == self.shell_surface
        &&& self.locked_from(before, compositor)
    }

    /// What the bracket leaves when the handler has returned `manager` and
    /// `returned`: the handler as it is now, the same two resources, and the
    /// compositor that the handler left, with all locks cleared.
    pub open spec fn takes_back(
        &self,
        manager: H,
        returned: Compositor,
        left: Self,
        compositor: Compositor,
    ) -> bool {
        &&& left.manager == manager
        &&& left.surface == self.surface
        &&& left.shell_surface == self.shell_surface
        &&& self.unlocked_from(returned, compositor)
    }

    /// A shell surface, its surface and the handler of its events.
    pub fn new(shell_surface: XdgV6ShellSurface, surface: Surface, manager: H) -> (shell: Self)
        ensures
            shell.shell_surface == shell_surface,
            shell.surface == surface,
            shell.manager == manager,
    {
        XdgV6Shell { shell_surface, surface, manager }
    }

    /// The address of the shell surface.
    pub fn surface_ptr(&self) -> (address: usize)
        ensures
            address == self.shell_surface.identity().shell_surface,
    {
        self.shell_surface.as_ptr()
    }

    /// The shell surface.
    pub fn surface_mut(&mut self) -> (shell_surface: &mut XdgV6ShellSurface)
        ensures
            *shell_surface == old(self).shell_surface,
            final(self).shell_surface == *final(shell_surface),
            final(self).surface == old(self).surface,
            final(self).manager == old(self).manager,
    {
        &mut self.shell_surface
    }

    /// Whether no lock of this shell surface is set.
    pub fn is_idle(&self, compositor: &Compositor) -> (idle: bool)
        requires
            self.surface.original(),
            self.shell_surface.original(),
        ensures
            idle == (self.lock_state(*compositor) == Some(LockState::Idle)),
    {
        !compositor.is_locked() && !compositor.tokens.is_borrowed(self.shell_surface_token())
            && !compositor.tokens.is_borrowed(self.surface_token())
    }

    /// Whether both resources own their tokens and exist, as every dispatch
    /// needs it.
    pub fn is_ready(&self, compositor: &Compositor) -> (ready: bool)
        ensures
            ready == (self.surface.valid(compositor.tokens@) && self.shell_surface.valid(
                compositor.tokens@,
            )),
    {
        self.surface.is_valid(&compositor.tokens) && self.shell_surface.is_valid(
            &compositor.tokens,
        )
    }

    /// Sets the lock of the compositor, then that of the shell surface, then
    /// that of the surface.
    pub fn lock(&mut self, compositor: &mut Compositor)
        requires
            old(self).ready(*old(compositor)),
            old(self).lock_state(*old(compositor)) == Some(LockState::Idle),
        ensures
            *final(self) == *old(self),
            final(self).ready(*final(compositor)),
            final(self).lock_state(*final(compositor)) == Some(LockState::Locked),
            old(self).locked_from(*old(compositor), *final(compositor)),
    {
        compositor.set_lock(true);
        self.shell_surface.set_lock(&mut compositor.tokens, true);
        self.surface.set_lock(&mut compositor.tokens, true);
    }

    /// Clears the locks of the two resources, the one set last first. The
    /// lock of the compositor stays as it is.
    pub fn unlock_resources(&mut self, compositor: &mut Compositor)
        requires
            old(self).ready(*old(compositor)),
        ensures
            *final(self) == *old(self),
            final(self).ready(*final(compositor)),
            final(compositor).tokens@ == resources_unlocked(
                old(compositor).tokens@,
                old(self).shell_surface.token().unwrap(),
                old(self).surface.token().unwrap(),
            ),
            final(compositor).session == old(compositor).session,
            final(compositor).state == old(compositor).state,
            old(compositor).locked() ==> final(self).lock_state(*final(compositor)) == Some(
                LockState::Unlocking,
            ),
    {
        self.surface.set_lock(&mut compositor.tokens, false);
        self.shell_surface.set_lock(&mut compositor.tokens, false);
    }

    /// Clears all locks: those of the two resources, the one set last first,
    /// and then that of the compositor. Whatever the locks showed before, no
    /// dispatch runs afterwards.
    pub fn unlock(&mut self, compositor: &mut Compositor)
        requires
            old(self).ready(*old(compositor)),
        ensures
            *final(self) == *old(self),
            final(self).ready(*final(compositor)),
            final(self).lock_state(*final(compositor)) == Some(LockState::Idle),
            old(self).unlocked_from(*old(compositor), *final(compositor)),
    {
        self.unlock_resources(compositor);
        compositor.set_lock(false);
    }

    fn shell_surface_token(&self) -> (id: usize)
        requires
            self.shell_surface.original(),
        ensures
            id == self.shell_surface.token().unwrap(),
    {
        self.shell_surface.token_id().unwrap()
    }

    fn surface_token(&self) -> (id: usize)
        requires
            self.surface.original(),
        ensures
            id == self.surface.token().unwrap(),
    {
        self.surface.token_id().unwrap()
    }

    /// The surface has committed a request.
    ///
    /// The handler's `on_commit` runs once, between `lock` and `unlock`.
    pub fn commit_notify(&mut self, compositor: &mut Compositor)
        requires
            old(self).ready(*old(compositor)),
            old(self).lock_state(*old(compositor)) == Some(LockState::Idle),
        ensures
            final(self).ready(*final(compositor)),
            final(self).lock_state(*final(compositor)) == Some(LockState::Idle),
            exists|
                m: &mut H,
                c: &mut Compositor,
                s: &mut Surface,
                sh: &mut XdgV6ShellSurface,
            |
                old(self).hands_over(*old(compositor), *m, *c, *s, *sh)
                    && #[trigger] call_ensures(H::on_commit, (m, c, s, sh), ())
                    && old(self).takes_back(
                    *final(m),
                    *final(c),
                    *final(self),
                    *final(compositor),
                ),
    {
        self.lock(compositor);
        let handler = H::on_commit;
        handler(&mut self.manager, compositor, &mut self.surface, &mut self.shell_surface);
        self.unlock(compositor);
    }

    /// The shell surface is about to be destroyed.
    ///
    /// The handler's `destroy` runs once, between `lock` and `unlock`.
    pub fn destroy_notify(&mut self, compositor: &mut Compositor)
        requires
            old(self).ready(*old(compositor)),
            old(self).lock_state(*old(compositor)) == Some(LockState::Idle),
        ensures
            final(self).ready(*final(compositor)),
            final(self).lock_state(*final(compositor)) == Some(LockState::Idle),
            exists|
                m: &mut H,
                c: &mut Compositor,
                s: &mut Surface,
                sh: &mut XdgV6ShellSurface,
            |
                old(self).hands_over(*old(compositor), *m, *c, *s, *sh)
                    && #[trigger] call_ensures(H::destroy, (m, c, s, sh), ())
                    && old(self).takes_back(
                    *final(m),
                    *final(c),
                    *final(self),
                    *final(compositor),
                ),
    {
        self.lock(compositor);
        let handler = H::destroy;
        handler(&mut self.manager, compositor, &mut self.surface, &mut self.shell_surface);
        self.unlock(compositor);
    }

    /// The client did not answer a ping in time.
    ///
    /// The handler's `ping_timeout` runs once, between `lock` and `unlock`.
    pub fn ping_timeout_notify(&mut self, compositor: &mut Compositor)
        requires
            old(self).ready(*old(compositor)),
            old(self).lock_state(*old(compositor)) == Some(LockState::Idle),
        ensures
            final(self).ready(*final(compositor)),
            final(self).lock_state(*final(compositor)) == Some(LockState::Idle),
            exists|
                m: &mut H,
                c: &mut Compositor,
                s: &mut Surface,
                sh: &mut XdgV6ShellSurface,
            |
                old(self).hands_over(*old(compositor), *m, *c, *s, *sh)
                    && #[trigger] call_ensures(H::ping_timeout, (m, c, s, sh), ())
                    && old(self).takes_back(
                    *final(m),
                    *final(c),
                    *final(self),
                    *final(compositor),
                ),
    {
        self.lock(compositor);
        let handler = H::ping_timeout;
        handler(&mut self.manager, compositor, &mut self.surface, &mut self.shell_surface);
        self.unlock(compositor);
    }

    /// A new popup has appeared. The handler's `new_popup` runs once, between
    /// `lock` and `unlock`.
    pub fn new_popup_notify(&mut self, compositor: &mut Compositor)
        requires
            old(self).ready(*old(compositor)),
            old(self).lock_state(*old(compositor)) == Some(LockState::Idle),
        ensures
            final(self).ready(*final(compositor)),
            final(self).lock_state(*final(compositor)) == Some(LockState::Idle),
            exists|
                m: &mut H,
                c: &mut Compositor,
                s: &mut Surface,
                sh: &mut XdgV6ShellSurface,
            |
                old(self).hands_over(*old(compositor), *m, *c, *s, *sh)
                    && #[trigger] call_ensures(H::new_popup, (m, c, s, sh), ())
                    && old(self).takes_back(
                    *final(m),
                    *final(c),
                    *final(self),
                    *final(compositor),
                ),
    {
        self.lock(compositor);
        let handler = H::new_popup;
        handler(&mut self.manager, compositor, &mut self.surface, &mut self.shell_surface);
        self.unlock(compositor);
    }

    /// The client asks to maximize the shell surface.
    ///
    /// The handler's `maximize_request` runs once, between `lock` and `unlock`.
    pub fn maximize_notify(&mut self, compositor: &mut Compositor)
        requires
            old(self).ready(*old(compositor)),
            old(self).lock_state(*old(compositor)) == Some(LockState::Idle),
        ensures
            final(self).ready(*final(compositor)),
            final(self).lock_state(*final(compositor)) == Some(LockState::Idle),
            exists|
                m: &mut H,
                c: &mut Compositor,
                s: &mut Surface,
                sh: &mut XdgV6ShellSurface,
            |
                old(self).hands_over(*old(compositor), *m, *c, *s, *sh)
                    && #[trigger] call_ensures(H::maximize_request, (m, c, s, sh), ())
                    && old(self).takes_back(
                    *final(m),
                    *final(c),
                    *final(self),
                    *final(compositor),
                ),
    {
        self.lock(compositor);
        let handler = H::maximize_request;
        handler(&mut self.manager, compositor, &mut self.surface, &mut self.shell_surface);
        self.unlock(compositor);
    }

    /// The client asks to minimize the shell surface.
    ///
    /// The handler's `minimize_request` runs once, between `lock` and `unlock`.
    pub fn minimize_notify(&mut self, compositor: &mut Compositor)
        requires
            old(self).ready(*old(compositor)),
            old(self).lock_state(*old(compositor)) == Some(LockState::Idle),
        ensures
            final(self).ready(*final(compositor)),
            final(self).lock_state(*final(compositor)) == Some(LockState::Idle),
            exists|
                m: &mut H,
                c: &mut Compositor,
                s: &mut Surface,
                sh: &mut XdgV6ShellSurface,
            |
                old(self).hands_over(*old(compositor), *m, *c, *s, *sh)
                    && #[trigger] call_ensures(H::minimize_request, (m, c, s, sh), ())
                    && old(self).takes_back(
                    *final(m),
                    *final(c),
                    *final(self),
                    *final(compositor),
                ),
    {
        self.lock(compositor);
        let handler = H::minimize_request;
        handler(&mut self.manager, compositor, &mut self.surface, &mut self.shell_surface);
        self.unlock(compositor);
    }

    /// The client asks to move the shell surface.
    ///
    /// The handler's `move_request` runs once, between `lock` and `unlock`,
    /// on the event at the address `event`.
    pub fn move_notify(&mut self, compositor: &mut Compositor, event: usize)
        requires
            old(self).ready(*old(compositor)),
            old(self).lock_state(*old(compositor)) == Some(LockState::Idle),
        ensures
            final(self).ready(*final(compositor)),
            final(self).lock_state(*final(compositor)) == Some(LockState::Idle),
            exists|
                m: &mut H,
                c: &mut Compositor,
                s: &mut Surface,
                sh: &mut XdgV6ShellSurface,
                e: &mut MoveEvent,
            |
                old(self).hands_over(*old(compositor), *m, *c, *s, *sh)
                    && *e == (MoveEvent { event })
                    && #[trigger] call_ensures(H::move_request, (m, c, s, sh, e), ())
                    && old(self).takes_back(
                    *final(m),
                    *final(c),
                    *final(self),
                    *final(compositor),
                ),
    {
        let mut event = MoveEvent::from_ptr(event);
        self.lock(compositor);
        let handler = H::move_request;
        handler(
            &mut self.manager,
            compositor,
            &mut self.surface,
            &mut self.shell_surface,
            &mut event,
        );
        self.unlock(compositor);
    }

    /// The client asks to resize the shell surface.
    ///
    /// The handler's `resize_request` runs once, between `lock` and `unlock`,
    /// on the event at the address `event`.
    pub fn resize_notify(&mut self, compositor: &mut Compositor, event: usize)
        requires
            old(self).ready(*old(compositor)),
            old(self).lock_state(*old(compositor)) == Some(LockState::Idle),
        ensures
            final(self).ready(*final(compositor)),
            final(self).lock_state(*final(compositor)) == Some(LockState::Idle),
            exists|
                m: &mut H,
                c: &mut Compositor,
                s: &mut Surface,
                sh: &mut XdgV6ShellSurface,
                e: &mut ResizeEvent,
            |
                old(self).hands_over(*old(compositor), *m, *c, *s, *sh)
                    && *e == (ResizeEvent { event })
                    && #[trigger] call_ensures(H::resize_request, (m, c, s, sh, e), ())
                    && old(self).takes_back(
                    *final(m),
                    *final(c),
                    *final(self),
                    *final(compositor),
                ),
    {
        let mut event = ResizeEvent::from_ptr(event);
        self.lock(compositor);
        let handler = H::resize_request;
        handler(
            &mut self.manager,
            compositor,
            &mut self.surface,
            &mut self.shell_surface,
            &mut event,
        );
        self.unlock(compositor);
    }

    /// The client asks to make the shell surface fullscreen.
    ///
    /// The handler's `fullscreen_request` runs once, between `lock` and `unlock`,
    /// on the event at the address `event`.
    pub fn fullscreen_notify(&mut self, compositor: &mut Compositor, event: usize)
        requires
            old(self).ready(*old(compositor)),
            old(self).lock_state(*old(compositor)) == Some(LockState::Idle),
        ensures
            final(self).ready(*final(compositor)),
            final(self).lock_state(*final(compositor)) == Some(LockState::Idle),
            exists|
                m: &mut H,
                c: &mut Compositor,
                s: &mut Surface,
                sh: &mut XdgV6ShellSurface,
                e: &mut SetFullscreenEvent,
            |
                old(self).hands_over(*old(compositor), *m, *c, *s, *sh)
                    && *e == (SetFullscreenEvent { event })
                    && #[trigger] call_ensures(H::fullscreen_request, (m, c, s, sh, e), ())
                    && old(self).takes_back(
                    *final(m),
                    *final(c),
                    *final(self),
                    *final(compositor),
                ),
    {
        let mut event = SetFullscreenEvent::from_ptr(event);
        self.lock(compositor);
        let handler = H::fullscreen_request;
        handler(
            &mut self.manager,
            compositor,
            &mut self.surface,
            &mut self.shell_surface,
            &mut event,
        );
        self.unlock(compositor);
    }

    /// The client asks to show the window menu.
    ///
    /// The handler's `show_window_menu_request` runs once, between `lock` and `unlock`,
    /// on the event at the address `event`.
    pub fn show_window_menu_notify(&mut self, compositor: &mut Compositor, event: usize)
        requires
            old(self).ready(*old(compositor)),
            old(self).lock_state(*old(compositor)) == Some(LockState::Idle),
        ensures
            final(self).ready(*final(compositor)),
            final(self).lock_state(*final(compositor)) == Some(LockState::Idle),
            exists|
                m: &mut H,
                c: &mut Compositor,
                s: &mut Surface,
                sh: &mut XdgV6ShellSurface,
                e: &mut ShowWindowMenuEvent,
            |
                old(self).hands_over(*old(compositor), *m, *c, *s, *sh)
                    && *e == (ShowWindowMenuEvent { event })
                    && #[trigger] call_ensures(H::show_window_menu_request, (m, c, s, sh, e), ())
                    && old(self).takes_back(
                    *final(m),
                    *final(c),
                    *final(self),
                    *final(compositor),
                ),
    {
        let mut event = ShowWindowMenuEvent::from_ptr(event);
        self.lock(compositor);
        let handler = H::show_window_menu_request;
        handler(
            &mut self.manager,
            compositor,
            &mut self.surface,
            &mut self.shell_surface,
            &mut event,
        );
        self.unlock(compositor);
    }

}

/// A whole dispatch ends where it began: from no lock set, through all locks
/// set and whatever the handler leaves of the compositor, as long as it
/// leaves the two resources alive, to no lock set.
pub proof fn lemma_dispatch_returns_to_idle(
    locked: bool,
    before: Tokens,
    returned: Tokens,
    shell_surface: usize,
    surface: usize,
)
    requires
        lock_state_of(locked, before, shell_surface, surface) == Some(LockState::Idle),
        alive(before, shell_surface),
        alive(before, surface),
        alive(returned, shell_surface),
        alive(returned, surface),
    ensures
        lock_state_of(
            true,
            resources_locked(before, shell_surface, surface),
            shell_surface,
            surface,
        ) == Some(LockState::Locked),
        lock_state_of(
            true,
            resources_unlocked(returned, shell_surface, surface),
            shell_surface,
            surface,
        ) == Some(LockState::Unlocking),
        lock_state_of(
            false,
            resources_unlocked(returned, shell_surface, surface),
            shell_surface,
            surface,
        ) == Some(LockState::Idle),
{
}

/// While the locks are set, a weak handle to either resource cannot be
/// upgraded: its status is that of a handle whose strong handle is out.
pub proof fn lemma_locked_resources_are_checked_out(
    locked: bool,
    tokens: Tokens,
    shell_surface: usize,
    surface: usize,
)
    requires
        lock_state_of(locked, tokens, shell_surface, surface) == Some(LockState::Locked),
        alive(tokens, shell_surface),
        alive(tokens, surface),
    ensures
        status_of(tokens, shell_surface) == HandleStatus::CheckedOut,
        status_of(tokens, surface) == HandleStatus::CheckedOut,
{
}

} // verus!
