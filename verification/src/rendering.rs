//! The capability surface a rendering backend offers during initialization.
//!
//! Rendering itself (windowing, textures, drawing) lives outside this crate;
//! the library only defines the handle type and the loading interface that a
//! backend implements.

use vstd::prelude::*;

verus! {

/// A handle to a texture loaded by a rendering backend.
pub type TextureId = usize;

/// A trait to load & init resources for rendering during initialization.
///
/// Implementations live in rendering backends outside this crate; nothing is
/// promised of them here.
pub trait Initialization {
    /// Loads a texture from a file and returns a [`TextureId`] as a handle.
    fn load_texture(&mut self, filename: &str) -> TextureId;
}

} // verus!
