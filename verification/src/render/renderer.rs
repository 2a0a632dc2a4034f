//! The renderer and the textures that it makes, as far as this library
//! decides anything about them: whether the foreign runtime made one.
use vstd::prelude::*;

verus! {

/// A texture, named by its address.
#[derive(Clone, Copy, Debug, PartialEq, Eq, Structural)]
pub struct Texture {
    pub texture: usize,
}

/// A renderer, named by its address.
#[derive(Debug)]
pub struct GenericRenderer {
    renderer: usize,
}

/// The texture at the address `texture`, or `None` where the address is
/// null: the foreign runtime could not make one.
pub fn create_texture(texture: usize) -> (made: Option<Texture>)
    ensures
        made == (if texture == 0 {
            None
        } else {
            Some(Texture { texture })
        }),
{
    if texture == 0 {
        None
    } else {
        Some(Texture { texture })
    }
}

impl GenericRenderer {
    /// The address of the renderer.
    pub closed spec fn address(&self) -> usize {
        self.renderer
    }

    /// The renderer that the foreign runtime made at the address `renderer`.
    /// A null address means that it made none, and there is no renderer to
    /// return.
    pub fn gles2_renderer(renderer: usize) -> (made: Self)
        requires
            renderer != 0,
        ensures
            made.address() == renderer,
    {
        GenericRenderer { renderer }
    }

    /// The texture that the foreign runtime made with this renderer at the
    /// address `texture`, or `None` where it made none.
    pub fn create_texture(&mut self, texture: usize) -> (made: Option<Texture>)
        ensures
            *final(self) == *old(self),
            made == (if texture == 0 {
                None
            } else {
                Some(Texture { texture })
            }),
    {
        create_texture(texture)
    }

    pub fn as_ptr(&self) -> (renderer: usize)
        ensures
            renderer == self.address(),
    {
        self.renderer
    }
}

} // verus!
