//! Keyboards, their indicator lights and their modifier keys.
use vstd::prelude::*;
use crate::flags::{has_bits, set_bits};
use crate::handle::{StrongHandle, WeakHandle};
use crate::liveliness::{tokens_wf, Registry, RegistryOp};
use crate::types::input_device::{DeviceRecord, InputDevice, InputDeviceType};

verus! {

pub const WLR_LED_NUM_LOCK: u32 = 1;

pub const WLR_LED_CAPS_LOCK: u32 = 2;

pub const WLR_LED_SCROLL_LOCK: u32 = 4;

/// All indicator light bits.
pub const WLR_LED_ALL: u32 = 7;

pub const WLR_MODIFIER_SHIFT: u32 = 1;

pub const WLR_MODIFIER_CAPS: u32 = 2;

pub const WLR_MODIFIER_CTRL: u32 = 4;

pub const WLR_MODIFIER_ALT: u32 = 8;

pub const WLR_MODIFIER_MOD2: u32 = 16;

pub const WLR_MODIFIER_MOD3: u32 = 32;

pub const WLR_MODIFIER_LOGO: u32 = 64;

pub const WLR_MODIFIER_MOD5: u32 = 128;

/// All modifier bits.
pub const WLR_MODIFIER_ALL: u32 = 255;

/// Number of modifiers.
pub const MODIFIER_COUNT: usize = 8;

/// A set of keyboard indicator lights.
#[derive(Clone, Copy, Debug, PartialEq, Eq, Structural)]
pub struct KeyboardLed {
    bits: u32,
}

impl View for KeyboardLed {
    type V = u32;

    closed spec fn view(&self) -> u32 {
        self.bits
    }
}

impl KeyboardLed {
    /// No light.
    pub fn empty() -> (leds: Self)
        ensures
            leds@ == 0,
    {
        KeyboardLed { bits: 0 }
    }

    /// The lights among `bits`; bits that name none are dropped.
    pub fn from_bits_truncate(bits: u32) -> (leds: Self)
        ensures
            leds@ == bits & WLR_LED_ALL,
    {
        KeyboardLed { bits: bits & WLR_LED_ALL }
    }

    pub fn bits(&self) -> (bits: u32)
        ensures
            bits == self@,
    {
        self.bits
    }

    /// Whether every light of `other` is in this set.
    pub fn contains(&self, other: KeyboardLed) -> (b: bool)
        ensures
            b == has_bits(self@, other@),
    {
        self.bits & other.bits == other.bits
    }

    /// Adds the lights of `other`.
    pub fn insert(&mut self, other: KeyboardLed)
        ensures
            final(self)@ == set_bits(old(self)@, other@),
    {
        self.bits = self.bits | other.bits;
    }
}

/// A set of keyboard modifiers.
#[derive(Clone, Copy, Debug, PartialEq, Eq, Structural)]
pub struct KeyboardModifier {
    bits: u32,
}

impl View for KeyboardModifier {
    type V = u32;

    closed spec fn view(&self) -> u32 {
        self.bits
    }
}

/// The bit of the modifier with the index `i`, in the order in which the
/// modifiers are listed.
pub open spec fn modifier_bit(i: int) -> u32 {
    if i == 0 {
        WLR_MODIFIER_SHIFT
    } else if i == 1 {
        WLR_MODIFIER_CAPS
    } else if i == 2 {
        WLR_MODIFIER_CTRL
    } else if i == 3 {
        WLR_MODIFIER_ALT
    } else if i == 4 {
        WLR_MODIFIER_MOD2
    } else if i == 5 {
        WLR_MODIFIER_MOD3
    } else if i == 6 {
        WLR_MODIFIER_LOGO
    } else {
        WLR_MODIFIER_MOD5
    }
}

/// The name of the modifier with the index `i`.
pub open spec fn modifier_name(i: int) -> Seq<char> {
    if i == 0 {
        "Shift"@
    } else if i == 1 {
        "Caps lock"@
    } else if i == 2 {
        "Ctrl"@
    } else if i == 3 {
        "Alt"@
    } else if i == 4 {
        "Mod2"@
    } else if i == 5 {
        "Mod3"@
    } else if i == 6 {
        "Logo"@
    } else {
        "Mod5"@
    }
}

/// The names of those among the first `n` modifiers that `bits` holds, in
/// the order in which the modifiers are listed.
pub open spec fn names_upto(bits: u32, n: int) -> Seq<Seq<char>>
    decreases n,
{
    if n <= 0 {
        Seq::empty()
    } else if has_bits(bits, modifier_bit(n - 1)) {
        names_upto(bits, n - 1).push(modifier_name(n - 1))
    } else {
        names_upto(bits, n - 1)
    }
}

/// The names of the modifiers that `bits` holds.
pub open spec fn modifier_names(bits: u32) -> Seq<Seq<char>> {
    names_upto(bits, MODIFIER_COUNT as int)
}

/// The characters of each string of `names`.
pub open spec fn strs_view(names: Seq<&'static str>) -> Seq<Seq<char>> {
    Seq::new(names.len(), |i: int| names[i]@)
}

/// What the debug formatting of a list of strings gives for the strings
/// `names`.
pub uninterp spec fn debug_list(names: Seq<Seq<char>>) -> Seq<char>;

/// Formats a list of strings as `{:?}` does. This calls `format!`; what it
/// returns is a function of the strings alone, and is named, not stated.
#[verifier::external_body]
fn format_debug_list(names: &Vec<&'static str>) -> (text: String)
    ensures
        text@ == debug_list(strs_view(names@)),
{
    format!("{:?}", names)
}

/// The name and the bit of the modifier with the index `i`.
fn modifier_entry(i: usize) -> (entry: (&'static str, u32))
    requires
        i < MODIFIER_COUNT,
    ensures
        entry.0@ == modifier_name(i as int),
        entry.1 == modifier_bit(i as int),
{
    if i == 0 {
        ("Shift", WLR_MODIFIER_SHIFT)
    } else if i == 1 {
        ("Caps lock", WLR_MODIFIER_CAPS)
    } else if i == 2 {
        ("Ctrl", WLR_MODIFIER_CTRL)
    } else if i == 3 {
        ("Alt", WLR_MODIFIER_ALT)
    } else if i == 4 {
        ("Mod2", WLR_MODIFIER_MOD2)
    } else if i == 5 {
        ("Mod3", WLR_MODIFIER_MOD3)
    } else if i == 6 {
        ("Logo", WLR_MODIFIER_LOGO)
    } else {
        ("Mod5", WLR_MODIFIER_MOD5)
    }
}

impl KeyboardModifier {
    /// No modifier.
    pub fn empty() -> (mods: Self)
        ensures
            mods@ == 0,
    {
        KeyboardModifier { bits: 0 }
    }

    /// The modifiers among `bits`; bits that name none are dropped.
    pub fn from_bits_truncate(bits: u32) -> (mods: Self)
        ensures
            mods@ == bits & WLR_MODIFIER_ALL,
    {
        KeyboardModifier { bits: bits & WLR_MODIFIER_ALL }
    }

    pub fn bits(&self) -> (bits: u32)
        ensures
            bits == self@,
    {
        self.bits
    }

    /// Whether every modifier of `other` is in this set.
    pub fn contains(&self, other: KeyboardModifier) -> (b: bool)
        ensures
            b == has_bits(self@, other@),
    {
        self.bits & other.bits == other.bits
    }

    /// The names of the modifiers in this set, in the order Shift, Caps
    /// lock, Ctrl, Alt, Mod2, Mod3, Logo, Mod5.
    pub fn names(&self) -> (names: Vec<&'static str>)
        ensures
            strs_view(names@) == modifier_names(self@),
    {
        let mut names: Vec<&'static str> = Vec::new();
        let mut i: usize = 0;
        assert(strs_view(names@) =~= names_upto(self@, 0));
        while i < MODIFIER_COUNT
            invariant
                i <= MODIFIER_COUNT,
                strs_view(names@) == names_upto(self@, i as int),
            decreases MODIFIER_COUNT - i,
        {
            let (name, bit) = modifier_entry(i);
            if self.bits & bit == bit {
                let ghost before = names@;
                names.push(name);
                assert(strs_view(names@) =~= strs_view(before).push(name@));
            }
            i = i + 1;
        }
        names
    }

    /// The set as text: the list of the names of its modifiers, formatted
    /// as a list of strings is for debugging.
    pub fn to_string(&self) -> (text: String)
        ensures
            text@ == debug_list(modifier_names(self@)),
    {
        let names = self.names();
        format_debug_list(&names)
    }
}

/// What a handle remembers of a keyboard.
#[derive(Clone, Copy, Debug, PartialEq, Eq, Structural)]
pub struct KeyboardData {
    /// The device that the keyboard belongs to.
    pub device: InputDevice,
    /// Address of the keyboard data.
    pub keyboard: usize,
}

/// A keyboard that exists.
pub type Keyboard = StrongHandle<KeyboardData>;

/// A keyboard that may be gone.
pub type KeyboardHandle = WeakHandle<KeyboardData>;

/// What a handle remembers of the keyboard that `device` announces.
pub open spec fn keyboard_data_of(device: DeviceRecord) -> KeyboardData {
    KeyboardData { device: InputDevice { device: device.device }, keyboard: device.payload }
}

/// A request to the foreign keyboard.
#[derive(Clone, Copy, Debug, PartialEq, Eq, Structural)]
pub enum KeyboardRequest {
    /// Give the keyboard at `keyboard` the keymap at `keymap`.
    SetKeymap { keyboard: usize, keymap: usize },
    /// Light the lights `leds` of the keyboard at `keyboard`, and no others.
    LedUpdate { keyboard: usize, leds: u32 },
}

impl StrongHandle<KeyboardData> {
    /// Wraps a freshly announced device, if it is a keyboard.
    ///
    /// This makes a token of its own: do it once for each device.
    pub fn new_from_input_device(registry: &mut Registry, device: DeviceRecord) -> (keyboard:
        Option<Keyboard>)
        ensures
            keyboard is Some <==> device.type_ == InputDeviceType::Keyboard,
            keyboard is None ==> final(registry)@ == old(registry)@,
            keyboard is Some ==> keyboard.unwrap().token() == Some(old(registry)@.len() as usize)
                && keyboard.unwrap().identity() == keyboard_data_of(device)
                && keyboard.unwrap().valid(final(registry)@) && final(registry)@
                == RegistryOp::Create.apply(old(registry)@),
            tokens_wf(old(registry)@) ==> tokens_wf(final(registry)@),
    {
        match device.type_ {
            InputDeviceType::Keyboard => {
                let data = KeyboardData {
                    device: InputDevice::from_ptr(device.device),
                    keyboard: device.payload,
                };
                Some(StrongHandle::from_foreign(registry, data))
            },
            _ => None,
        }
    }

    /// The address of the keyboard data.
    pub fn as_ptr(&self) -> (keyboard: usize)
        ensures
            keyboard == self.identity().keyboard,
    {
        self.data().keyboard
    }

    /// The device that the keyboard belongs to.
    pub fn input_device(&self) -> (device: InputDevice)
        ensures
            device == self.identity().device,
    {
        self.data().device
    }

    /// The request that gives this keyboard the keymap at `keymap`.
    pub fn set_keymap(&mut self, keymap: usize) -> (request: KeyboardRequest)
        ensures
            *final(self) == *old(self),
            request == (KeyboardRequest::SetKeymap {
                keyboard: old(self).identity().keyboard,
                keymap,
            }),
    {
        KeyboardRequest::SetKeymap { keyboard: self.data().keyboard, keymap }
    }

    /// The request that lights the lights `leds` of this keyboard.
    pub fn update_led(&mut self, leds: KeyboardLed) -> (request: KeyboardRequest)
        ensures
            *final(self) == *old(self),
            request == (KeyboardRequest::LedUpdate {
                keyboard: old(self).identity().keyboard,
                leds: leds@,
            }),
    {
        KeyboardRequest::LedUpdate { keyboard: self.data().keyboard, leds: leds.bits() }
    }

    /// The modifiers that the foreign keyboard reports as the word `raw`.
    pub fn get_modifiers(&self, raw: u32) -> (mods: KeyboardModifier)
        ensures
            mods@ == raw & WLR_MODIFIER_ALL,
    {
        KeyboardModifier::from_bits_truncate(raw)
    }
}

impl WeakHandle<KeyboardData> {
    /// The device that the keyboard belongs to.
    pub fn input_device(&self) -> (device: InputDevice)
        ensures
            device == self.identity().device,
    {
        self.data().device
    }

    /// The address of the keyboard data.
    pub fn as_ptr(&self) -> (keyboard: usize)
        ensures
            keyboard == self.identity().keyboard,
    {
        self.data().keyboard
    }
}

} // verus!
