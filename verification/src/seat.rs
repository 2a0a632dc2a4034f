//! The seat and the input capabilities that it advertises to clients.
use vstd::prelude::*;
use crate::flags::{clear_bits, has_bits, lemma_clear_bits, lemma_set_bits, set_bits};

verus! {

/// Bit of the pointer capability.
pub const POINTER_BIT: u32 = 1;

/// Bit of the keyboard capability.
pub const KEYBOARD_BIT: u32 = 2;

/// Bit of the touch capability.
pub const TOUCH_BIT: u32 = 4;

/// All capability bits.
pub const CAPABILITY_BITS: u32 = 7;

/// A set of input capabilities: pointer, keyboard, touch.
#[derive(Clone, Copy, Debug, PartialEq, Eq, Structural)]
pub struct Capability {
    bits: u32,
}

impl View for Capability {
    type V = u32;

    closed spec fn view(&self) -> u32 {
        self.bits
    }
}

impl Capability {
    /// No capability.
    pub fn empty() -> (cap: Self)
        ensures
            cap@ == 0,
    {
        Capability { bits: 0 }
    }

    /// The pointer capability alone.
    pub fn pointer() -> (cap: Self)
        ensures
            cap@ == POINTER_BIT,
    {
        Capability { bits: POINTER_BIT }
    }

    /// The keyboard capability alone.
    pub fn keyboard() -> (cap: Self)
        ensures
            cap@ == KEYBOARD_BIT,
    {
        Capability { bits: KEYBOARD_BIT }
    }

    /// The touch capability alone.
    pub fn touch() -> (cap: Self)
        ensures
            cap@ == TOUCH_BIT,
    {
        Capability { bits: TOUCH_BIT }
    }

    /// The capabilities among `bits`; bits that name none are dropped.
    pub fn from_bits_truncate(bits: u32) -> (cap: Self)
        ensures
            cap@ == bits & CAPABILITY_BITS,
    {
        Capability { bits: bits & CAPABILITY_BITS }
    }

    pub fn bits(&self) -> (bits: u32)
        ensures
            bits == self@,
    {
        self.bits
    }

    pub fn is_empty(&self) -> (b: bool)
        ensures
            b == (self@ == 0),
    {
        self.bits == 0
    }

    /// Whether every capability of `other` is in this set.
    pub fn contains(&self, other: Capability) -> (b: bool)
        ensures
            b == has_bits(self@, other@),
    {
        self.bits & other.bits == other.bits
    }

    /// Adds the capabilities of `other`.
    pub fn insert(&mut self, other: Capability)
        ensures
            final(self)@ == set_bits(old(self)@, other@),
    {
        self.bits = self.bits | other.bits;
    }

    /// Takes the capabilities of `other` away.
    pub fn remove(&mut self, other: Capability)
        ensures
            final(self)@ == clear_bits(old(self)@, other@),
    {
        self.bits = self.bits & !other.bits;
    }
}

/// The seat as far as this library reads and writes it: the capabilities
/// that it advertises.
#[derive(Clone, Copy, Debug, PartialEq, Eq, Structural)]
pub struct Seat {
    capabilities: Capability,
}

impl View for Seat {
    type V = u32;

    /// The advertised capability bits.
    closed spec fn view(&self) -> u32 {
        self.capabilities@
    }
}

impl Seat {
    /// A seat that advertises nothing.
    pub fn new() -> (seat: Self)
        ensures
            seat@ == 0,
    {
        Seat { capabilities: Capability::empty() }
    }

    pub fn capabilities(&self) -> (cap: Capability)
        ensures
            cap@ == self@,
    {
        self.capabilities
    }

    pub fn set_capabilities(&mut self, cap: Capability)
        ensures
            final(self)@ == cap@,
    {
        self.capabilities = cap;
    }
}

/// The capabilities after a device of the class `class` was added and the
/// class has `members` devices: the first device of a class makes the seat
/// advertise the class.
pub open spec fn advertised(caps: u32, class: u32, members: nat) -> u32 {
    if members == 1 {
        set_bits(caps, class)
    } else {
        caps
    }
}

/// The capabilities after a device of the class `class` was removed and the
/// class has `members` devices left: with the last device of a class the seat
/// stops advertising the class.
pub open spec fn withdrawn(caps: u32, class: u32, members: nat) -> u32 {
    if members == 0 {
        clear_bits(caps, class)
    } else {
        caps
    }
}

/// The seat advertises a class exactly when the class has a device.
pub open spec fn coherent(caps: u32, class: u32, members: nat) -> bool {
    has_bits(caps, class) <==> members > 0
}

/// Makes the seat advertise `class` if the class has just got its first
/// device.
pub fn advertise(seat: &mut Seat, class: Capability, members: usize)
    ensures
        final(seat)@ == advertised(old(seat)@, class@, members as nat),
{
    if members == 1 {
        let mut cap = seat.capabilities();
        cap.insert(class);
        seat.set_capabilities(cap);
    }
}

/// Makes the seat stop advertising `class` if the class has just lost its
/// last device.
pub fn withdraw(seat: &mut Seat, class: Capability, members: usize)
    ensures
        final(seat)@ == withdrawn(old(seat)@, class@, members as nat),
{
    if members == 0 {
        let mut cap = seat.capabilities();
        cap.remove(class);
        seat.set_capabilities(cap);
    }
}

/// Adding a device to a class that had `before` devices: the seat advertises
/// the class afterwards; the first device changes the advertisement, a
/// further one leaves it as it was; other classes are not touched.
pub proof fn lemma_added_device_is_advertised(caps: u32, class: u32, before: nat, other: u32)
    requires
        coherent(caps, class, before),
    ensures
        has_bits(advertised(caps, class, before + 1), class),
        coherent(advertised(caps, class, before + 1), class, before + 1),
        before >= 1 ==> advertised(caps, class, before + 1) == caps,
        other & class == 0 ==> (has_bits(advertised(caps, class, before + 1), other) <==> has_bits(
            caps,
            other,
        )),
{
    lemma_set_bits(caps, class, other);
}

/// Removing a device from a class that had `before` devices: the class is
/// advertised afterwards exactly when a device is left; removing the last
/// one withdraws it, removing another leaves the advertisement as it was;
/// other classes are not touched.
pub proof fn lemma_removed_device_is_withdrawn(caps: u32, class: u32, before: nat, other: u32)
    requires
        class != 0,
        before >= 1,
        coherent(caps, class, before),
    ensures
        coherent(withdrawn(caps, class, (before - 1) as nat), class, (before - 1) as nat),
        before == 1 ==> !has_bits(withdrawn(caps, class, (before - 1) as nat), class),
        before >= 2 ==> withdrawn(caps, class, (before - 1) as nat) == caps,
        other & class == 0 ==> (has_bits(withdrawn(caps, class, (before - 1) as nat), other)
            <==> has_bits(caps, other)),
{
    lemma_clear_bits(caps, class, other);
}

} // verus!
