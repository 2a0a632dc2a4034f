//! Input devices as the foreign runtime announces them.
use vstd::prelude::*;

verus! {

/// The kind of an input device.
#[derive(Clone, Copy, Debug, PartialEq, Eq, Structural)]
pub enum InputDeviceType {
    Keyboard,
    Pointer,
    Touch,
    TabletTool,
    TabletPad,
}

/// What the foreign runtime holds for an input device that it announces:
/// where the device lies, what kind it is, and where the data of that kind
/// lies.
#[derive(Clone, Copy, Debug, PartialEq, Eq, Structural)]
pub struct DeviceRecord {
    /// Address of the device.
    pub device: usize,
    /// Kind of the device.
    pub type_: InputDeviceType,
    /// Address of the keyboard, pointer or other data of the device.
    pub payload: usize,
}

/// An input device, named by its address.
#[derive(Clone, Copy, Debug, PartialEq, Eq, Structural)]
pub struct InputDevice {
    pub device: usize,
}

impl InputDevice {
    /// The device at the address `device`.
    pub fn from_ptr(device: usize) -> (input: Self)
        ensures
            input == (InputDevice { device }),
    {
        InputDevice { device }
    }

    /// The address of the device.
    pub fn as_ptr(&self) -> (device: usize)
        ensures
            device == self.device,
    {
        self.device
    }
}

} // verus!
