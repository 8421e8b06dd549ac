//! Texture atlases, as far as the extractor reads them.

use vstd::prelude::*;

use bevy::asset::HandleId;
use bevy::math::Rect;

verus! {

/// What the extractor reads of a loaded texture atlas.
#[derive(Clone, Copy, Debug)]
pub struct LoadedAtlas<'a> {
    /// The image that holds the atlas.
    pub texture: HandleId,
    /// The rectangles of the image that sprites select by index.
    pub textures: &'a [Rect],
}

/// A loaded texture atlas in contracts: its image and its rectangles.
pub struct Atlas {
    pub texture: HandleId,
    pub textures: Seq<Rect>,
}

impl<'a> View for LoadedAtlas<'a> {
    type V = Atlas;

    open spec fn view(&self) -> Atlas {
        Atlas { texture: self.texture, textures: self.textures@ }
    }
}

} // verus!
