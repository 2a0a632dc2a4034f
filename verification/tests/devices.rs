use wlroots::compositor::Compositor;
use wlroots::handle::HandleStatus;
use wlroots::interest::InterestSet;
use wlroots::keyboard::{keyboard_added, keyboard_removed, KeyboardHandler};
use wlroots::liveliness::{DropReport, Registry};
use wlroots::pointer::{pointer_added, pointer_removed, CursorHandler, PointerHandler};
use wlroots::seat::{advertise, withdraw, Capability, Seat, KEYBOARD_BIT, POINTER_BIT, TOUCH_BIT};
use wlroots::types::input_device::{DeviceRecord, InputDevice, InputDeviceType};
use wlroots::types::keyboard::{Keyboard, KeyboardData};
use wlroots::types::pointer::Pointer;

fn new_keyboard(compositor: &mut Compositor, device: usize) -> Keyboard {
    let record = DeviceRecord { device, type_: InputDeviceType::Keyboard, payload: device + 1 };
    Keyboard::new_from_input_device(&mut compositor.tokens, record).unwrap()
}

fn new_pointer(compositor: &mut Compositor, device: usize) -> Pointer {
    let record = DeviceRecord { device, type_: InputDeviceType::Pointer, payload: device + 1 };
    Pointer::new_from_input_device(&mut compositor.tokens, record).unwrap()
}

fn capabilities(compositor: &Compositor) -> u32 {
    compositor.state.seat.capabilities().bits()
}

#[test]
fn capability_bits_are_the_expected_ones() {
    assert_eq!(POINTER_BIT, 1);
    assert_eq!(KEYBOARD_BIT, 2);
    assert_eq!(TOUCH_BIT, 4);
    assert_eq!(Capability::pointer().bits(), 1);
    assert_eq!(Capability::keyboard().bits(), 2);
    assert_eq!(Capability::touch().bits(), 4);
    assert_eq!(Capability::empty().bits(), 0);
    assert_eq!(Capability::from_bits_truncate(0xff).bits(), 7);
}

#[test]
fn capability_set_inserts_and_removes() {
    let mut cap = Capability::empty();
    assert!(cap.is_empty());
    cap.insert(Capability::keyboard());
    cap.insert(Capability::touch());
    cap.insert(Capability::keyboard());
    assert_eq!(cap.bits(), 6);
    assert!(cap.contains(Capability::keyboard()));
    assert!(!cap.contains(Capability::pointer()));
    cap.remove(Capability::keyboard());
    assert_eq!(cap.bits(), 4);
    cap.remove(Capability::keyboard());
    assert_eq!(cap.bits(), 4);
    cap.remove(Capability::touch());
    assert!(cap.is_empty());
}

#[test]
fn seat_advertises_with_the_first_device_only() {
    let mut seat = Seat::new();
    assert_eq!(seat.capabilities().bits(), 0);
    advertise(&mut seat, Capability::pointer(), 2);
    assert_eq!(seat.capabilities().bits(), 0);
    advertise(&mut seat, Capability::pointer(), 1);
    assert_eq!(seat.capabilities().bits(), 1);
    advertise(&mut seat, Capability::keyboard(), 1);
    assert_eq!(seat.capabilities().bits(), 3);
    withdraw(&mut seat, Capability::pointer(), 1);
    assert_eq!(seat.capabilities().bits(), 3);
    withdraw(&mut seat, Capability::pointer(), 0);
    assert_eq!(seat.capabilities().bits(), 2);
    seat.set_capabilities(Capability::touch());
    assert_eq!(seat.capabilities(), Capability::touch());
}

#[test]
fn new_compositor_is_empty_and_idle() {
    let compositor = Compositor::new();
    assert!(!compositor.is_locked());
    assert!(compositor.is_running());
    assert!(!compositor.session.has_fault());
    assert_eq!(compositor.tokens.len(), 0);
    assert_eq!(compositor.state.inputs.pointers.len(), 0);
    assert_eq!(compositor.state.inputs.keyboards.len(), 0);
    assert_eq!(capabilities(&compositor), 0);
}

#[test]
fn interest_set_holds_a_foreign_object_once() {
    let mut registry = Registry::new();
    let record = DeviceRecord { device: 1, type_: InputDeviceType::Keyboard, payload: 2 };
    let one = Keyboard::new_from_input_device(&mut registry, record).unwrap();
    let two = Keyboard::new_from_input_device(&mut registry, record).unwrap();
    let mut set: InterestSet<KeyboardData> = InterestSet::new();
    assert_eq!(set.len(), 0);
    assert!(set.insert(one.weak_reference(&mut registry)).is_none());
    assert!(set.insert(two.weak_reference(&mut registry)).is_none());
    let again = set.insert(one.weak_reference(&mut registry));
    assert_eq!(again.map(|handle| handle.id()), Some(0));
    assert_eq!(set.len(), 2);
    let probe_one = one.weak_reference(&mut registry);
    let probe_two = two.weak_reference(&mut registry);
    assert!(set.contains(&probe_one));
    assert!(set.contains(&probe_two));
    assert_eq!(set.remove(&probe_one).map(|handle| handle.id()), Some(0));
    assert!(set.remove(&probe_one).is_none());
    assert!(!set.contains(&probe_one));
    assert!(set.contains(&probe_two));
    assert_eq!(set.len(), 1);
}

#[test]
fn keyboards_come_and_go() {
    let mut compositor = Compositor::new();
    let k1 = new_keyboard(&mut compositor, 10);
    let k2 = new_keyboard(&mut compositor, 20);

    let handle = k1.weak_reference(&mut compositor.tokens);
    let setup = keyboard_added(&mut compositor, handle).expect("a handler is returned");
    assert_eq!(setup.device, InputDevice { device: 10 });
    assert_eq!(capabilities(&compositor), KEYBOARD_BIT);
    assert_eq!(compositor.state.inputs.keyboards.len(), 1);

    let handle = k2.weak_reference(&mut compositor.tokens);
    let second = keyboard_added(&mut compositor, handle).unwrap();
    assert_eq!(second.device, InputDevice { device: 20 });
    assert_eq!(capabilities(&compositor), KEYBOARD_BIT);
    assert_eq!(compositor.state.inputs.keyboards.len(), 2);

    let mut handler: KeyboardHandler = setup.handler;
    let handle = k1.weak_reference(&mut compositor.tokens);
    handler.destroyed(&mut compositor, handle);
    k1.destroy(&mut compositor.tokens);
    assert_eq!(capabilities(&compositor), KEYBOARD_BIT);
    assert_eq!(compositor.state.inputs.keyboards.len(), 1);

    let mut handler = second.handler;
    let handle = k2.weak_reference(&mut compositor.tokens);
    handler.destroyed(&mut compositor, handle);
    k2.destroy(&mut compositor.tokens);
    assert_eq!(capabilities(&compositor), 0);
    assert_eq!(compositor.state.inputs.keyboards.len(), 0);
    assert_eq!(compositor.state.inputs.pointers.len(), 0);
}

#[test]
fn first_pointer_is_advertised_and_last_pointer_is_withdrawn() {
    let mut compositor = Compositor::new();
    let p1 = new_pointer(&mut compositor, 30);
    let p2 = new_pointer(&mut compositor, 40);
    let handle = p1.weak_reference(&mut compositor.tokens);
    let setup = pointer_added(&mut compositor, handle).unwrap();
    assert_eq!(setup.cursor_image, "left_ptr");
    assert_eq!(setup.device, InputDevice { device: 30 });
    assert_eq!(capabilities(&compositor), POINTER_BIT);
    let handle = p2.weak_reference(&mut compositor.tokens);
    pointer_added(&mut compositor, handle).unwrap();
    assert_eq!(capabilities(&compositor), POINTER_BIT);
    assert_eq!(compositor.state.inputs.pointers.len(), 2);
    let mut handler: PointerHandler = setup.handler;
    let handle = p2.weak_reference(&mut compositor.tokens);
    handler.destroyed(&mut compositor, handle);
    assert_eq!(capabilities(&compositor), POINTER_BIT);
    let handle = p1.weak_reference(&mut compositor.tokens);
    handler.destroyed(&mut compositor, handle);
    assert_eq!(capabilities(&compositor), 0);
    assert_eq!(compositor.state.inputs.pointers.len(), 0);
    let _cursor = CursorHandler;
}

#[test]
fn classes_do_not_disturb_each_other() {
    let mut compositor = Compositor::new();
    let keyboard = new_keyboard(&mut compositor, 10);
    let pointer = new_pointer(&mut compositor, 30);
    let handle = keyboard.weak_reference(&mut compositor.tokens);
    let keyboard_setup = keyboard_added(&mut compositor, handle).unwrap();
    let handle = pointer.weak_reference(&mut compositor.tokens);
    let pointer_setup = pointer_added(&mut compositor, handle).unwrap();
    assert_eq!(capabilities(&compositor), POINTER_BIT | KEYBOARD_BIT);
    let mut handler = keyboard_setup.handler;
    let handle = keyboard.weak_reference(&mut compositor.tokens);
    handler.destroyed(&mut compositor, handle);
    assert_eq!(capabilities(&compositor), POINTER_BIT);
    assert_eq!(compositor.state.inputs.pointers.len(), 1);
    let mut handler = pointer_setup.handler;
    let handle = pointer.weak_reference(&mut compositor.tokens);
    handler.destroyed(&mut compositor, handle);
    assert_eq!(capabilities(&compositor), 0);
}

#[test]
fn device_that_is_added_twice_is_kept_once() {
    let mut compositor = Compositor::new();
    let pointer = new_pointer(&mut compositor, 30);
    let handle = pointer.weak_reference(&mut compositor.tokens);
    pointer_added(&mut compositor, handle).unwrap();
    let handle = pointer.weak_reference(&mut compositor.tokens);
    assert_eq!(compositor.tokens.weak_count(0), 2);
    pointer_added(&mut compositor, handle).unwrap();
    assert_eq!(compositor.state.inputs.pointers.len(), 1);
    assert_eq!(compositor.tokens.weak_count(0), 1);
    assert_eq!(capabilities(&compositor), POINTER_BIT);
}

#[test]
fn removing_an_unknown_device_changes_no_set() {
    let mut compositor = Compositor::new();
    let known = new_pointer(&mut compositor, 30);
    let unknown = new_pointer(&mut compositor, 40);
    let handle = known.weak_reference(&mut compositor.tokens);
    let setup = pointer_added(&mut compositor, handle).unwrap();
    let mut handler = setup.handler;
    let handle = unknown.weak_reference(&mut compositor.tokens);
    handler.destroyed(&mut compositor, handle);
    assert_eq!(compositor.state.inputs.pointers.len(), 1);
    assert_eq!(capabilities(&compositor), POINTER_BIT);
    assert_eq!(compositor.tokens.weak_count(1), 0);
}

#[test]
fn adding_a_device_leaves_it_available() {
    let mut compositor = Compositor::new();
    let pointer = new_pointer(&mut compositor, 30);
    let handle = pointer.weak_reference(&mut compositor.tokens);
    let probe = pointer.weak_reference(&mut compositor.tokens);
    pointer_added(&mut compositor, handle).unwrap();
    assert_eq!(probe.status(&compositor.tokens), HandleStatus::Available);
    assert!(!compositor.is_locked());
}

#[test]
fn removed_pointer_leaves_set_seat_and_life() {
    let mut compositor = Compositor::new();
    let p1 = new_pointer(&mut compositor, 30);
    let p2 = new_pointer(&mut compositor, 40);
    let handle = p1.weak_reference(&mut compositor.tokens);
    let mut handler = pointer_added(&mut compositor, handle).unwrap().handler;
    let handle = p2.weak_reference(&mut compositor.tokens);
    pointer_added(&mut compositor, handle).unwrap();
    let mut kept = p1.weak_reference(&mut compositor.tokens);
    assert_eq!(compositor.tokens.weak_count(0), 2);

    let report = pointer_removed(&mut compositor, p1, &mut handler);
    assert_eq!(report, DropReport { finalized: true, weak_count: 1 });
    assert_eq!(compositor.state.inputs.pointers.len(), 1);
    assert_eq!(capabilities(&compositor), POINTER_BIT);
    assert!(!compositor.is_locked());
    assert!(!compositor.tokens.is_alive(0));
    assert!(!compositor.tokens.is_borrowed(0));
    assert_eq!(kept.status(&compositor.tokens), HandleStatus::Absent);
    assert_eq!(kept.run(&mut compositor.tokens, |_, pointer| pointer.as_ptr()), None);

    let report = pointer_removed(&mut compositor, p2, &mut handler);
    assert_eq!(report, DropReport { finalized: true, weak_count: 0 });
    assert_eq!(compositor.state.inputs.pointers.len(), 0);
    assert_eq!(capabilities(&compositor), 0);
    assert!(!compositor.is_locked());
}

#[test]
fn removed_keyboard_that_was_never_added_only_dies() {
    let mut compositor = Compositor::new();
    let known = new_keyboard(&mut compositor, 10);
    let stray = new_keyboard(&mut compositor, 20);
    let handle = known.weak_reference(&mut compositor.tokens);
    let mut handler = keyboard_added(&mut compositor, handle).unwrap().handler;
    let report = keyboard_removed(&mut compositor, stray, &mut handler);
    assert_eq!(report, DropReport { finalized: true, weak_count: 0 });
    assert_eq!(compositor.state.inputs.keyboards.len(), 1);
    assert_eq!(capabilities(&compositor), KEYBOARD_BIT);
    assert!(compositor.tokens.is_alive(0));
    assert!(!compositor.tokens.is_alive(1));
    let report = keyboard_removed(&mut compositor, known, &mut handler);
    assert_eq!(report, DropReport { finalized: true, weak_count: 0 });
    assert_eq!(capabilities(&compositor), 0);
}
