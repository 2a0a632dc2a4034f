//! Pointer devices.
use vstd::prelude::*;
use crate::handle::{StrongHandle, WeakHandle};
use crate::liveliness::{tokens_wf, Registry, RegistryOp};
use crate::types::input_device::{DeviceRecord, InputDevice, InputDeviceType};

verus! {

/// What a handle remembers of a pointer.
#[derive(Clone, Copy, Debug, PartialEq, Eq, Structural)]
pub struct PointerData {
    /// The device that the pointer belongs to.
    pub device: InputDevice,
    /// Address of the pointer data.
    pub pointer: usize,
}

/// A pointer that exists.
pub type Pointer = StrongHandle<PointerData>;

/// A pointer that may be gone.
pub type PointerHandle = WeakHandle<PointerData>;

/// What a handle remembers of the pointer that `device` announces.
pub open spec fn pointer_data_of(device: DeviceRecord) -> PointerData {
    PointerData { device: InputDevice { device: device.device }, pointer: device.payload }
}

impl StrongHandle<PointerData> {
    /// Wraps a freshly announced device, if it is a pointer.
    ///
    /// This makes a token of its own: do it once for each device.
    pub fn new_from_input_device(registry: &mut Registry, device: DeviceRecord) -> (pointer: Option<
        Pointer,
    >)
        ensures
            pointer is Some <==> device.type_ == InputDeviceType::Pointer,
            pointer is None ==> final(registry)@ == old(registry)@,
            pointer is Some ==> pointer.unwrap().token() == Some(old(registry)@.len() as usize)
                && pointer.unwrap().identity() == pointer_data_of(device) && pointer.unwrap().valid(
                final(registry)@,
            ) && final(registry)@ == RegistryOp::Create.apply(old(registry)@),
            tokens_wf(old(registry)@) ==> tokens_wf(final(registry)@),
    {
        match device.type_ {
            InputDeviceType::Pointer => {
                let data = PointerData {
                    device: InputDevice::from_ptr(device.device),
                    pointer: device.payload,
                };
                Some(StrongHandle::from_foreign(registry, data))
            },
            _ => None,
        }
    }

    /// The address of the pointer data.
    pub fn as_ptr(&self) -> (pointer: usize)
        ensures
            pointer == self.identity().pointer,
    {
        self.data().pointer
    }

    /// The device that the pointer belongs to.
    pub fn input_device(&self) -> (device: InputDevice)
        ensures
            device == self.identity().device,
    {
        self.data().device
    }
}

impl WeakHandle<PointerData> {
    /// The address of the pointer data.
    pub fn as_ptr(&self) -> (pointer: usize)
        ensures
            pointer == self.identity().pointer,
    {
        self.data().pointer
    }

    /// The device that the pointer belongs to.
    pub fn input_device(&self) -> (device: InputDevice)
        ensures
            device == self.identity().device,
    {
        self.data().device
    }
}

} // verus!
