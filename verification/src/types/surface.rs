//! Surfaces and the shell surfaces that give them a role.
use vstd::prelude::*;
use crate::handle::StrongHandle;
use crate::liveliness::{tokens_wf, Registry, RegistryOp};

verus! {

/// What a handle remembers of a surface.
#[derive(Clone, Copy, Debug, PartialEq, Eq, Structural)]
pub struct SurfaceData {
    /// Address of the surface.
    pub surface: usize,
}

/// What a handle remembers of a shell surface.
#[derive(Clone, Copy, Debug, PartialEq, Eq, Structural)]
pub struct XdgV6ShellSurfaceData {
    /// Address of the shell surface.
    pub shell_surface: usize,
}

/// A surface that exists.
pub type Surface = StrongHandle<SurfaceData>;

/// A shell surface that exists.
pub type XdgV6ShellSurface = StrongHandle<XdgV6ShellSurfaceData>;

impl StrongHandle<SurfaceData> {
    /// Wraps the freshly made surface at the address `surface`.
    pub fn from_ptr(registry: &mut Registry, surface: usize) -> (wrapped: Surface)
        ensures
            wrapped.token() == Some(old(registry)@.len() as usize),
            wrapped.identity() == (SurfaceData { surface }),
            wrapped.valid(final(registry)@),
            final(registry)@ == RegistryOp::Create.apply(old(registry)@),
            tokens_wf(old(registry)@) ==> tokens_wf(final(registry)@),
    {
        StrongHandle::from_foreign(registry, SurfaceData { surface })
    }

    /// The address of the surface.
    pub fn as_ptr(&self) -> (surface: usize)
        ensures
            surface == self.identity().surface,
    {
        self.data().surface
    }
}

impl StrongHandle<XdgV6ShellSurfaceData> {
    /// Wraps the freshly made shell surface at the address `shell_surface`.
    pub fn from_ptr(registry: &mut Registry, shell_surface: usize) -> (wrapped: XdgV6ShellSurface)
        ensures
            wrapped.token() == Some(old(registry)@.len() as usize),
            wrapped.identity() == (XdgV6ShellSurfaceData { shell_surface }),
            wrapped.valid(final(registry)@),
            final(registry)@ == RegistryOp::Create.apply(old(registry)@),
            tokens_wf(old(registry)@) ==> tokens_wf(final(registry)@),
    {
        StrongHandle::from_foreign(registry, XdgV6ShellSurfaceData { shell_surface })
    }

    /// The address of the shell surface.
    pub fn as_ptr(&self) -> (shell_surface: usize)
        ensures
            shell_surface == self.identity().shell_surface,
    {
        self.data().shell_surface
    }
}

} // verus!
