//! Views of a texture.

use vstd::prelude::*;
use crate::handle::{Handle, Pending, Texture, TextureView};
use crate::native::{CallModel, NativeCall};
use crate::types::TextureViewDescriptor;

verus! {

impl Texture {
    /// Describes the creation of the view of this texture that `desc` selects.
    pub fn create_texture_view(&self, desc: &TextureViewDescriptor) -> (p: Pending<TextureView>)
        ensures
            p.call_spec()@ == (CallModel::TextureCreateTextureView {
                texture: self.ident(),
                desc: *desc,
            }),
    {
        Pending::new(NativeCall::TextureCreateTextureView { texture: self.id(), desc: *desc })
    }

    /// Describes the creation of the view of the whole of this texture, for which the
    /// native layer needs no descriptor.
    pub fn create_default_texture_view(&self) -> (p: Pending<TextureView>)
        ensures
            p.call_spec()@ == (CallModel::TextureCreateDefaultTextureView {
                texture: self.ident(),
            }),
    {
        Pending::new(NativeCall::TextureCreateDefaultTextureView { texture: self.id() })
    }
}

} // verus!
