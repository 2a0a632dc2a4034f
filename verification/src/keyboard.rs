//! What the compositor does when a keyboard comes and when it goes.
use vstd::prelude::*;
use crate::compositor::Compositor;
use crate::flags::{lemma_clear_bits, lemma_set_bits};
use crate::handle::{lemma_check_in_undoes_upgrade, status_of, HandleStatus};
use crate::liveliness::{borrowed, DropReport, TokenState};
use crate::interest::{holds, inserted, lemma_inserted, lemma_without, without};
use crate::liveliness::{with_weak_dropped, Registry};
use crate::seat::{
    advertise, advertised, withdraw, withdrawn, Capability, KEYBOARD_BIT, POINTER_BIT,
};
use crate::types::input_device::InputDevice;
use crate::types::keyboard::{Keyboard, KeyboardHandle};

verus! {

/// Handles the events of one keyboard.
pub struct KeyboardHandler;

/// What is left to do for a keyboard that has been taken in: make its
/// device the keyboard of the seat. The handler is the one to call for the
/// keyboard's events from now on.
pub struct KeyboardSetup {
    pub handler: KeyboardHandler,
    /// The device to make the seat's keyboard.
    pub device: InputDevice,
}

/// Takes a newly found keyboard in: its handle goes into the interest set of
/// the keyboards, and if it is the first keyboard the seat advertises the
/// keyboard capability from now on.
///
/// The keyboard must exist and must not be checked out. A handle to a keyboard
/// that the set holds already is given up.
pub fn keyboard_added(compositor: &mut Compositor, keyboard_handle: KeyboardHandle) -> (setup:
    Option<KeyboardSetup>)
    requires
        status_of(old(compositor).tokens@, keyboard_handle.token()) == HandleStatus::Available,
    ensures
        setup is Some,
        setup.unwrap().device == keyboard_handle.identity().device,
        ({
            let before = old(compositor).state.inputs.keyboards@;
            let after = final(compositor).state.inputs.keyboards@;
            &&& after == inserted(before, keyboard_handle)
            &&& final(compositor).state.seat@ == advertised(
                old(compositor).state.seat@,
                KEYBOARD_BIT,
                after.len(),
            )
            &&& final(compositor).tokens@ == (if holds(before, keyboard_handle.token()) {
                with_weak_dropped(old(compositor).tokens@, keyboard_handle.token())
            } else {
                old(compositor).tokens@
            })
        }),
        final(compositor).state.inputs.pointers == old(compositor).state.inputs.pointers,
        final(compositor).session == old(compositor).session,
        old(compositor).coherent() ==> final(compositor).coherent(),
{
    let mut keyboard_handle = keyboard_handle;
    let reader = |registry: &mut Registry, keyboard: &mut Keyboard| -> (device: InputDevice)
        ensures
            device == old(keyboard).identity().device,
            *final(registry) == *old(registry),
        { keyboard.input_device() };
    let device = keyboard_handle.run(&mut compositor.tokens, reader);
    proof {
        lemma_check_in_undoes_upgrade(old(compositor).tokens@, keyboard_handle.token());
        keyboard_handle.lemma_upgraded();
    }
    proof {
        use_type_invariant(&compositor.state.inputs.keyboards);
    }
    let rejected = compositor.state.inputs.keyboards.insert(keyboard_handle);
    match rejected {
        Some(handle) => {
            handle.release(&mut compositor.tokens);
        },
        None => {},
    }
    advertise(
        &mut compositor.state.seat,
        Capability::keyboard(),
        compositor.state.inputs.keyboards.len(),
    );
    proof {
        lemma_inserted(old(compositor).state.inputs.keyboards@, keyboard_handle);
        lemma_set_bits(old(compositor).state.seat@, KEYBOARD_BIT, POINTER_BIT);
        assert(POINTER_BIT & KEYBOARD_BIT == 0) by (bit_vector);
    }
    Some(KeyboardSetup { handler: KeyboardHandler, device: device.unwrap() })
}

impl KeyboardHandler {
    /// The keyboard is gone: its handle leaves the interest set of the
    /// keyboards, and if no keyboard is left the seat stops advertising the
    /// keyboard capability. Both the handle from the set and `keyboard_handle`
    /// are given up.
    pub fn destroyed(&mut self, compositor: &mut Compositor, keyboard_handle: KeyboardHandle)
        ensures
            ({
                let before = old(compositor).state.inputs.keyboards@;
                let after = final(compositor).state.inputs.keyboards@;
                let once = with_weak_dropped(old(compositor).tokens@, keyboard_handle.token());
                &&& after == without(before, keyboard_handle.token())
                &&& final(compositor).state.seat@ == withdrawn(
                    old(compositor).state.seat@,
                    KEYBOARD_BIT,
                    after.len(),
                )
                &&& final(compositor).tokens@ == (if holds(before, keyboard_handle.token()) {
                    with_weak_dropped(once, keyboard_handle.token())
                } else {
                    once
                })
            }),
            final(compositor).state.inputs.pointers == old(compositor).state.inputs.pointers,
            final(compositor).session == old(compositor).session,
            old(compositor).coherent() ==> final(compositor).coherent(),
    {
        proof {
        use_type_invariant(&compositor.state.inputs.keyboards);
    }
        let removed = compositor.state.inputs.keyboards.remove(&keyboard_handle);
        match removed {
            Some(handle) => {
                handle.release(&mut compositor.tokens);
            },
            None => {},
        }
        withdraw(
            &mut compositor.state.seat,
            Capability::keyboard(),
            compositor.state.inputs.keyboards.len(),
        );
        proof {
            lemma_without(old(compositor).state.inputs.keyboards@, keyboard_handle.token());
            lemma_clear_bits(old(compositor).state.seat@, KEYBOARD_BIT, POINTER_BIT);
            assert(POINTER_BIT & KEYBOARD_BIT == 0 && KEYBOARD_BIT != 0) by (bit_vector);
        }
        keyboard_handle.release(&mut compositor.tokens);
    }
}

/// The foreign runtime has destroyed a keyboard. While the locks of the
/// compositor and of the keyboard are set, the handler takes the keyboard out
/// of the interest set and, if it was the last one, out of the seat's
/// advertisement. Then the locks are cleared and the strong handle lets go
/// of its token: from now on every weak handle to the keyboard is absent.
///
/// No dispatch may be running, and the keyboard must not be checked out.
pub fn keyboard_removed(
    compositor: &mut Compositor,
    keyboard: Keyboard,
    handler: &mut KeyboardHandler,
) -> (report: DropReport)
    requires
        keyboard.valid(old(compositor).tokens@),
        !old(compositor).locked(),
        !borrowed(old(compositor).tokens@, keyboard.token().unwrap()),
        old(compositor).tokens@[keyboard.token().unwrap() as int].weak < usize::MAX,
    ensures
        ({
            let id = keyboard.token().unwrap();
            let before = old(compositor).state.inputs.keyboards@;
            let after = final(compositor).state.inputs.keyboards@;
            let token = old(compositor).tokens@[id as int];
            let left = if holds(before, id) {
                token.with_weak_dropped().weak
            } else {
                token.weak
            };
            &&& after == without(before, id)
            &&& final(compositor).state.seat@ == withdrawn(
                old(compositor).state.seat@,
                KEYBOARD_BIT,
                after.len(),
            )
            &&& final(compositor).tokens@ == old(compositor).tokens@.update(
                id as int,
                TokenState { strong: 0, weak: left, borrowed: false },
            )
            &&& report == (DropReport { finalized: true, weak_count: left as usize })
            &&& status_of(final(compositor).tokens@, id) == HandleStatus::Absent
        }),
        !final(compositor).locked(),
        final(compositor).fault() == old(compositor).fault(),
        final(compositor).running() == old(compositor).running(),
        final(compositor).state.inputs.pointers == old(compositor).state.inputs.pointers,
        old(compositor).coherent() ==> final(compositor).coherent(),
{
    proof {
        use_type_invariant(&compositor.tokens);
    }
    compositor.set_lock(true);
    keyboard.set_lock(&mut compositor.tokens, true);
    let handle = keyboard.weak_reference(&mut compositor.tokens);
    handler.destroyed(compositor, handle);
    keyboard.set_lock(&mut compositor.tokens, false);
    compositor.set_lock(false);
    let report = keyboard.destroy(&mut compositor.tokens);
    proof {
        let id = keyboard.token().unwrap();
        let token = old(compositor).tokens@[id as int];
        let left = if holds(old(compositor).state.inputs.keyboards@, id) {
            token.with_weak_dropped().weak
        } else {
            token.weak
        };
        assert(compositor.tokens@ =~= old(compositor).tokens@.update(
            id as int,
            TokenState { strong: 0, weak: left, borrowed: false },
        ));
    }
    report.unwrap()
}

} // verus!
