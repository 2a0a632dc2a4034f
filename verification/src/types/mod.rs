//! The kinds of foreign objects that handles are made for.
pub mod input_device;
pub mod keyboard;
pub mod pointer;
pub mod surface;
