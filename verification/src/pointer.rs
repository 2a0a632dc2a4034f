//! What the compositor does when a pointer comes and when it goes.
use vstd::prelude::*;
use crate::compositor::Compositor;
use crate::flags::{lemma_clear_bits, lemma_set_bits};
use crate::handle::{lemma_check_in_undoes_upgrade, status_of, HandleStatus};
use crate::liveliness::{borrowed, DropReport, TokenState};
use crate::interest::{holds, inserted, lemma_inserted, lemma_without, without};
use crate::liveliness::{with_weak_dropped, Registry};
use crate::seat::{
    advertise, advertised, withdraw, withdrawn, Capability, KEYBOARD_BIT, POINTER_BIT,
};
use crate::types::input_device::InputDevice;
use crate::types::pointer::{Pointer, PointerHandle};

verus! {

/// Handles the events of the cursor. It leaves every event as it is.
pub struct CursorHandler;

/// Handles the events of one pointer.
pub struct PointerHandler;

/// What is left to do for a pointer that has been taken in: show the cursor
/// image and attach the pointer's device to the cursor. The handler is the
/// one to call for the pointer's events from now on.
pub struct PointerSetup {
    pub handler: PointerHandler,
    /// Name of the cursor image to show.
    pub cursor_image: &'static str,
    /// The device to attach to the cursor.
    pub device: InputDevice,
}

/// Takes a newly found pointer in: its handle goes into the interest set of
/// the pointers, and if it is the first pointer the seat advertises the
/// pointer capability from now on.
///
/// The pointer must exist and must not be checked out. A handle to a pointer
/// that the set holds already is given up.
pub fn pointer_added(compositor: &mut Compositor, pointer_handle: PointerHandle) -> (setup: Option<
    PointerSetup,
>)
    requires
        status_of(old(compositor).tokens@, pointer_handle.token()) == HandleStatus::Available,
    ensures
        setup is Some,
        setup.unwrap().device == pointer_handle.identity().device,
        setup.unwrap().cursor_image@ == "left_ptr"@,
        ({
            let before = old(compositor).state.inputs.pointers@;
            let after = final(compositor).state.inputs.pointers@;
            &&& after == inserted(before, pointer_handle)
            &&& final(compositor).state.seat@ == advertised(
                old(compositor).state.seat@,
                POINTER_BIT,
                after.len(),
            )
            &&& final(compositor).tokens@ == (if holds(before, pointer_handle.token()) {
                with_weak_dropped(old(compositor).tokens@, pointer_handle.token())
            } else {
                old(compositor).tokens@
            })
        }),
        final(compositor).state.inputs.keyboards == old(compositor).state.inputs.keyboards,
        final(compositor).session == old(compositor).session,
        old(compositor).coherent() ==> final(compositor).coherent(),
{
    let mut pointer_handle = pointer_handle;
    let reader = |registry: &mut Registry, pointer: &mut Pointer| -> (device: InputDevice)
        ensures
            device == old(pointer).identity().device,
            *final(registry) == *old(registry),
        { pointer.input_device() };
    let device = pointer_handle.run(&mut compositor.tokens, reader);
    proof {
        lemma_check_in_undoes_upgrade(old(compositor).tokens@, pointer_handle.token());
        pointer_handle.lemma_upgraded();
    }
    proof {
        use_type_invariant(&compositor.state.inputs.pointers);
    }
    let rejected = compositor.state.inputs.pointers.insert(pointer_handle);
    match rejected {
        Some(handle) => {
            handle.release(&mut compositor.tokens);
        },
        None => {},
    }
    advertise(
        &mut compositor.state.seat,
        Capability::pointer(),
        compositor.state.inputs.pointers.len(),
    );
    proof {
        lemma_inserted(old(compositor).state.inputs.pointers@, pointer_handle);
        lemma_set_bits(old(compositor).state.seat@, POINTER_BIT, KEYBOARD_BIT);
        assert(KEYBOARD_BIT & POINTER_BIT == 0) by (bit_vector);
    }
    Some(
        PointerSetup { handler: PointerHandler, cursor_image: "left_ptr", device: device.unwrap() },
    )
}

impl PointerHandler {
    /// The pointer is gone: its handle leaves the interest set of the
    /// pointers, and if no pointer is left the seat stops advertising the
    /// pointer capability. Both the handle from the set and `pointer_handle`
    /// are given up.
    pub fn destroyed(&mut self, compositor: &mut Compositor, pointer_handle: PointerHandle)
        ensures
            ({
                let before = old(compositor).state.inputs.pointers@;
                let after = final(compositor).state.inputs.pointers@;
                let once = with_weak_dropped(old(compositor).tokens@, pointer_handle.token());
                &&& after == without(before, pointer_handle.token())
                &&& final(compositor).state.seat@ == withdrawn(
                    old(compositor).state.seat@,
                    POINTER_BIT,
                    after.len(),
                )
                &&& final(compositor).tokens@ == (if holds(before, pointer_handle.token()) {
                    with_weak_dropped(once, pointer_handle.token())
                } else {
                    once
                })
            }),
            final(compositor).state.inputs.keyboards == old(compositor).state.inputs.keyboards,
            final(compositor).session == old(compositor).session,
            old(compositor).coherent() ==> final(compositor).coherent(),
    {
        proof {
        use_type_invariant(&compositor.state.inputs.pointers);
    }
        let removed = compositor.state.inputs.pointers.remove(&pointer_handle);
        match removed {
            Some(handle) => {
                handle.release(&mut compositor.tokens);
            },
            None => {},
        }
        withdraw(
            &mut compositor.state.seat,
            Capability::pointer(),
            compositor.state.inputs.pointers.len(),
        );
        proof {
            lemma_without(old(compositor).state.inputs.pointers@, pointer_handle.token());
            lemma_clear_bits(old(compositor).state.seat@, POINTER_BIT, KEYBOARD_BIT);
            assert(KEYBOARD_BIT & POINTER_BIT == 0 && POINTER_BIT != 0) by (bit_vector);
        }
        pointer_handle.release(&mut compositor.tokens);
    }
}

/// The foreign runtime has destroyed a pointer. While the locks of the
/// compositor and of the pointer are set, the handler takes the pointer out
/// of the interest set and, if it was the last one, out of the seat's
/// advertisement. Then the locks are cleared and the strong handle lets go
/// of its token: from now on every weak handle to the pointer is absent.
///
/// No dispatch may be running, and the pointer must not be checked out.
pub fn pointer_removed(
    compositor: &mut Compositor,
    pointer: Pointer,
    handler: &mut PointerHandler,
) -> (report: DropReport)
    requires
        pointer.valid(old(compositor).tokens@),
        !old(compositor).locked(),
        !borrowed(old(compositor).tokens@, pointer.token().unwrap()),
        old(compositor).tokens@[pointer.token().unwrap() as int].weak < usize::MAX,
    ensures
        ({
            let id = pointer.token().unwrap();
            let before = old(compositor).state.inputs.pointers@;
            let after = final(compositor).state.inputs.pointers@;
            let token = old(compositor).tokens@[id as int];
            let left = if holds(before, id) {
                token.with_weak_dropped().weak
            } else {
                token.weak
            };
            &&& after == without(before, id)
            &&& final(compositor).state.seat@ == withdrawn(
                old(compositor).state.seat@,
                POINTER_BIT,
                after.len(),
            )
            &&& final(compositor).tokens@ == old(compositor).tokens@.update(
                id as int,
                TokenState { strong: 0, weak: left, borrowed: false },
            )
            &&& report == (DropReport { finalized: true, weak_count: left as usize })
            &&& status_of(final(compositor).tokens@, id) == HandleStatus::Absent
        }),
        !final(compositor).locked(),
        final(compositor).fault() == old(compositor).fault(),
        final(compositor).running() == old(compositor).running(),
        final(compositor).state.inputs.keyboards == old(compositor).state.inputs.keyboards,
        old(compositor).coherent() ==> final(compositor).coherent(),
{
    proof {
        use_type_invariant(&compositor.tokens);
    }
    compositor.set_lock(true);
    pointer.set_lock(&mut compositor.tokens, true);
    let handle = pointer.weak_reference(&mut compositor.tokens);
    handler.destroyed(compositor, handle);
    pointer.set_lock(&mut compositor.tokens, false);
    compositor.set_lock(false);
    let report = pointer.destroy(&mut compositor.tokens);
    proof {
        let id = pointer.token().unwrap();
        let token = old(compositor).tokens@[id as int];
        let left = if holds(old(compositor).state.inputs.pointers@, id) {
            token.with_weak_dropped().weak
        } else {
            token.weak
        };
        assert(compositor.tokens@ =~= old(compositor).tokens@.update(
            id as int,
            TokenState { strong: 0, weak: left, borrowed: false },
        ));
    }
    report.unwrap()
}

} // verus!
