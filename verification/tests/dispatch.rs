use std::time::Duration;
use wlroots::compositor::{Compositor, Session};
use wlroots::handle::{HandleStatus, Violation};
use wlroots::manager::xdg_shell_v6_handler::{XdgV6Shell, XdgV6ShellHandler};
use wlroots::render::renderer::{create_texture, GenericRenderer, Texture};
use wlroots::types::surface::{Surface, XdgV6ShellSurface};
use wlroots::utils::{
    checked_to_ms, dummy_callback, duration_from_timespec, handle_unwind, LogVerbosity, ToMS,
    UnwindAction,
};
use wlroots::xdg_shell_v6_events::{MoveEvent, ResizeEvent, SetFullscreenEvent, ShowWindowMenuEvent};

/// Writes down which method was called, with the event's address where
/// there is one, and whether all locks were set at that time.
struct Recorder {
    calls: Vec<(&'static str, usize)>,
    always_locked: bool,
}

impl Recorder {
    fn new() -> Self {
        Recorder { calls: Vec::new(), always_locked: true }
    }

    fn note(
        &mut self,
        name: &'static str,
        event: usize,
        compositor: &Compositor,
        surface: &Surface,
        shell_surface: &XdgV6ShellSurface,
    ) {
        let locked = compositor.is_locked()
            && compositor.tokens.is_borrowed(surface.token_id().unwrap())
            && compositor.tokens.is_borrowed(shell_surface.token_id().unwrap());
        self.always_locked = self.always_locked && locked;
        self.calls.push((name, event));
    }
}

impl XdgV6ShellHandler for Recorder {
    fn on_commit(&mut self, c: &mut Compositor, s: &mut Surface, sh: &mut XdgV6ShellSurface) {
        self.note("on_commit", 0, c, s, sh);
    }

    fn destroy(&mut self, c: &mut Compositor, s: &mut Surface, sh: &mut XdgV6ShellSurface) {
        self.note("destroy", 0, c, s, sh);
    }

    fn ping_timeout(&mut self, c: &mut Compositor, s: &mut Surface, sh: &mut XdgV6ShellSurface) {
        self.note("ping_timeout", 0, c, s, sh);
    }

    fn new_popup(&mut self, c: &mut Compositor, s: &mut Surface, sh: &mut XdgV6ShellSurface) {
        self.note("new_popup", 0, c, s, sh);
    }

    fn maximize_request(&mut self, c: &mut Compositor, s: &mut Surface, sh: &mut XdgV6ShellSurface) {
        self.note("maximize_request", 0, c, s, sh);
    }

    fn minimize_request(&mut self, c: &mut Compositor, s: &mut Surface, sh: &mut XdgV6ShellSurface) {
        self.note("minimize_request", 0, c, s, sh);
    }

    fn move_request(
        &mut self,
        c: &mut Compositor,
        s: &mut Surface,
        sh: &mut XdgV6ShellSurface,
        event: &mut MoveEvent,
    ) {
        self.note("move_request", event.event, c, s, sh);
    }

    fn resize_request(
        &mut self,
        c: &mut Compositor,
        s: &mut Surface,
        sh: &mut XdgV6ShellSurface,
        event: &mut ResizeEvent,
    ) {
        self.note("resize_request", event.event, c, s, sh);
    }

    fn fullscreen_request(
        &mut self,
        c: &mut Compositor,
        s: &mut Surface,
        sh: &mut XdgV6ShellSurface,
        event: &mut SetFullscreenEvent,
    ) {
        self.note("fullscreen_request", event.event, c, s, sh);
    }

    fn show_window_menu_request(
        &mut self,
        c: &mut Compositor,
        s: &mut Surface,
        sh: &mut XdgV6ShellSurface,
        event: &mut ShowWindowMenuEvent,
    ) {
        self.note("show_window_menu_request", event.event, c, s, sh);
    }
}

/// Overrides nothing: every event is left alone.
struct Silent;

impl XdgV6ShellHandler for Silent {}

fn shell_with<H: XdgV6ShellHandler>(compositor: &mut Compositor, manager: H) -> XdgV6Shell<H> {
    let surface = Surface::from_ptr(&mut compositor.tokens, 0x1000);
    let shell_surface = XdgV6ShellSurface::from_ptr(&mut compositor.tokens, 0x2000);
    XdgV6Shell::new(shell_surface, surface, manager)
}

#[test]
fn every_event_reaches_its_own_method_once() {
    let mut compositor = Compositor::new();
    let mut shell = shell_with(&mut compositor, Recorder::new());
    shell.commit_notify(&mut compositor);
    shell.destroy_notify(&mut compositor);
    shell.ping_timeout_notify(&mut compositor);
    shell.new_popup_notify(&mut compositor);
    shell.maximize_notify(&mut compositor);
    shell.minimize_notify(&mut compositor);
    shell.move_notify(&mut compositor, 1);
    shell.resize_notify(&mut compositor, 2);
    shell.fullscreen_notify(&mut compositor, 3);
    shell.show_window_menu_notify(&mut compositor, 4);
    assert_eq!(
        shell.manager.calls,
        vec![
            ("on_commit", 0),
            ("destroy", 0),
            ("ping_timeout", 0),
            ("new_popup", 0),
            ("maximize_request", 0),
            ("minimize_request", 0),
            ("move_request", 1),
            ("resize_request", 2),
            ("fullscreen_request", 3),
            ("show_window_menu_request", 4),
        ]
    );
}

#[test]
fn locks_are_set_for_the_handler_and_clear_around_it() {
    let mut compositor = Compositor::new();
    let mut shell = shell_with(&mut compositor, Recorder::new());
    assert!(shell.is_ready(&compositor));
    assert!(shell.is_idle(&compositor));
    shell.commit_notify(&mut compositor);
    assert!(shell.is_idle(&compositor));
    shell.destroy_notify(&mut compositor);
    assert!(shell.is_idle(&compositor));
    shell.ping_timeout_notify(&mut compositor);
    assert!(shell.is_idle(&compositor));
    shell.new_popup_notify(&mut compositor);
    assert!(shell.is_idle(&compositor));
    shell.maximize_notify(&mut compositor);
    assert!(shell.is_idle(&compositor));
    shell.minimize_notify(&mut compositor);
    assert!(shell.is_idle(&compositor));
    shell.move_notify(&mut compositor, 1);
    assert!(shell.is_idle(&compositor));
    shell.resize_notify(&mut compositor, 2);
    assert!(shell.is_idle(&compositor));
    shell.fullscreen_notify(&mut compositor, 3);
    assert!(shell.is_idle(&compositor));
    shell.show_window_menu_notify(&mut compositor, 4);
    assert!(shell.is_idle(&compositor));
    assert!(shell.manager.always_locked);
    assert_eq!(shell.manager.calls.len(), 10);
    assert!(!compositor.is_locked());
    assert!(!compositor.tokens.is_borrowed(0));
    assert!(!compositor.tokens.is_borrowed(1));
}

#[test]
fn default_handler_leaves_everything_as_it_is() {
    let mut compositor = Compositor::new();
    let mut shell = shell_with(&mut compositor, Silent);
    shell.commit_notify(&mut compositor);
    shell.resize_notify(&mut compositor, 9);
    assert!(shell.is_idle(&compositor));
    assert!(compositor.is_running());
    assert_eq!(compositor.tokens.len(), 2);
    assert_eq!(shell.surface_ptr(), 0x2000);
    assert_eq!(shell.surface_mut().as_ptr(), 0x2000);
    assert_eq!(shell.surface.as_ptr(), 0x1000);
}

#[test]
fn lock_and_unlock_bracket_a_dispatch() {
    let mut compositor = Compositor::new();
    let mut shell = shell_with(&mut compositor, Silent);
    shell.lock(&mut compositor);
    assert!(!shell.is_idle(&compositor));
    assert!(compositor.is_locked());
    assert!(compositor.tokens.is_borrowed(0));
    assert!(compositor.tokens.is_borrowed(1));
    shell.unlock_resources(&mut compositor);
    assert!(compositor.is_locked());
    assert!(!compositor.tokens.is_borrowed(0));
    assert!(!compositor.tokens.is_borrowed(1));
    assert!(!shell.is_idle(&compositor));
    shell.unlock(&mut compositor);
    assert!(shell.is_idle(&compositor));
}

#[test]
fn unlock_restores_idle_after_a_failed_handler() {
    let mut slot = Some(Compositor::new());
    let mut shell = shell_with(slot.as_mut().unwrap(), Silent);
    shell.lock(slot.as_mut().unwrap());
    shell.unlock(slot.as_mut().unwrap());
    let action = handle_unwind(&mut slot, Err::<(), String>("handler failed".to_string()));
    assert_eq!(action, UnwindAction::Terminate);
    let compositor = slot.as_ref().unwrap();
    assert!(shell.is_idle(compositor));
    assert!(!compositor.is_running());
    assert!(compositor.session.has_fault());
}

#[test]
fn weak_handle_to_a_locked_surface_cannot_be_upgraded() {
    let mut compositor = Compositor::new();
    let mut shell = shell_with(&mut compositor, Silent);
    let weak = shell.surface.weak_reference(&mut compositor.tokens);
    shell.lock(&mut compositor);
    assert_eq!(weak.status(&compositor.tokens), HandleStatus::CheckedOut);
    let refused = weak.try_upgrade(&mut compositor.tokens);
    assert_eq!(refused.err().map(|fault| fault.violation), Some(Violation::DoubleBorrow));
    shell.unlock(&mut compositor);
    assert_eq!(weak.status(&compositor.tokens), HandleStatus::Available);
}

#[test]
fn shell_with_a_destroyed_surface_is_not_ready() {
    let mut compositor = Compositor::new();
    let shell = shell_with(&mut compositor, Silent);
    assert!(shell.is_ready(&compositor));
    compositor.tokens.drop_strong(0);
    assert!(!shell.is_ready(&compositor));
}

#[test]
fn returned_handler_goes_on() {
    let mut slot = Some(Compositor::new());
    assert_eq!(handle_unwind(&mut slot, Ok::<u8, String>(3)), UnwindAction::Continue);
    let compositor = slot.as_ref().unwrap();
    assert!(compositor.is_running());
    assert!(!compositor.session.has_fault());
    let mut empty: Option<Compositor> = None;
    assert_eq!(handle_unwind(&mut empty, Ok::<(), String>(())), UnwindAction::Continue);
    assert!(empty.is_none());
}

#[test]
fn failed_handler_without_a_compositor_aborts() {
    let mut empty: Option<Compositor> = None;
    let action = handle_unwind(&mut empty, Err::<(), String>("boom".to_string()));
    assert_eq!(action, UnwindAction::Abort);
    assert!(empty.is_none());
}

#[test]
fn failed_handler_ends_the_session() {
    let mut slot = Some(Compositor::new());
    slot.as_mut().unwrap().set_lock(true);
    let action = handle_unwind(&mut slot, Err::<u32, String>("boom".to_string()));
    assert_eq!(action, UnwindAction::Terminate);
    let compositor = slot.as_ref().unwrap();
    assert!(!compositor.is_running());
    assert!(compositor.session.has_fault());
    assert!(compositor.is_locked());
    assert_eq!(compositor.tokens.len(), 0);
}

#[test]
fn session_records_fault_and_end_apart() {
    let mut session = Session::new();
    assert!(session.is_running() && !session.is_locked() && !session.has_fault());
    session.set_lock(true);
    assert!(session.is_locked() && session.is_running() && !session.has_fault());
    session.save_panic_error("boom".to_string());
    assert!(session.has_fault() && session.is_running() && session.is_locked());
    session.terminate();
    assert!(!session.is_running() && session.has_fault() && session.is_locked());
    let mut compositor = Compositor::new();
    compositor.save_panic_error("boom".to_string());
    assert!(compositor.is_running());
    compositor.terminate();
    assert!(!compositor.is_running());
}

#[test]
fn duration_in_milliseconds_is_rounded_down() {
    assert_eq!(Duration::new(1, 500_000_000).to_ms(), 1500);
    assert_eq!(Duration::new(0, 999_999).to_ms(), 0);
    assert_eq!(Duration::new(0, 1_000_000).to_ms(), 1);
    assert_eq!(Duration::new(2, 999_999_999).to_ms(), 2999);
    assert_eq!(Duration::new(0, 0).to_ms(), 0);
    assert_eq!(Duration::new(4_294_967, 295_000_000).to_ms(), u32::MAX);
}

#[test]
fn duration_that_does_not_fit_gives_none() {
    assert_eq!(checked_to_ms(Duration::new(1, 500_000_000)), Some(1500));
    assert_eq!(checked_to_ms(Duration::new(4_294_967, 295_999_999)), Some(u32::MAX));
    assert_eq!(checked_to_ms(Duration::new(4_294_967, 296_000_000)), None);
    assert_eq!(checked_to_ms(Duration::new(4_294_968, 0)), None);
    assert_eq!(checked_to_ms(Duration::new(u64::MAX, 999_999_999)), None);
    assert_eq!(checked_to_ms(Duration::new(7, 0)), Some(7000));
}

#[test]
fn clock_reading_becomes_a_duration() {
    assert_eq!(duration_from_timespec(1, 500_000_000), Some(Duration::new(1, 500_000_000)));
    assert_eq!(duration_from_timespec(0, 0), Some(Duration::new(0, 0)));
    assert_eq!(duration_from_timespec(7, 999_999_999).map(|d| d.to_ms()), Some(7999));
    assert_eq!(duration_from_timespec(-1, 0), None);
    assert_eq!(duration_from_timespec(0, -1), None);
    assert_eq!(duration_from_timespec(0, 1_000_000_000), None);
    assert_eq!(duration_from_timespec(i64::MAX, 1).map(|d| d.as_secs()), Some(i64::MAX as u64));
}

#[test]
fn dummy_callback_drops_the_message() {
    dummy_callback(LogVerbosity::L_DEBUG, "nobody reads this".to_string());
    dummy_callback(LogVerbosity::L_SILENT, String::new());
    assert!(LogVerbosity::L_ERROR != LogVerbosity::L_INFO);
}

#[test]
fn null_texture_is_no_texture() {
    assert_eq!(create_texture(0), None);
    assert_eq!(create_texture(0x40), Some(Texture { texture: 0x40 }));
    let mut renderer = GenericRenderer::gles2_renderer(0x80);
    assert_eq!(renderer.as_ptr(), 0x80);
    assert_eq!(renderer.create_texture(0), None);
    assert_eq!(renderer.create_texture(0x44), Some(Texture { texture: 0x44 }));
}

#[test]
fn events_are_named_by_their_address() {
    assert_eq!(MoveEvent::from_ptr(5), MoveEvent { event: 5 });
    assert_eq!(ResizeEvent::from_ptr(6).event, 6);
    assert_eq!(SetFullscreenEvent::from_ptr(7).event, 7);
    assert_eq!(ShowWindowMenuEvent::from_ptr(8).event, 8);
}
