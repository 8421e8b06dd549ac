//! The components that an entity with an independent transform carries.

use vstd::prelude::*;

use bevy::asset::HandleId;
use bevy::math::{Mat3A, Rect, Vec2};
use bevy::render::color::Color;
use bevy::render::view::{ComputedVisibility, Visibility};
use bevy::sprite::Anchor;
use bevy::transform::components::{GlobalTransform, Transform};

use crate::host::{
    default_anchor, default_color, default_computed_visibility, default_global_transform,
    default_image, default_texture_atlas, default_transform, default_visibility, matrix,
    matrix_of,
};

verus! {

/// What a plain sprite is drawn with: the attributes of the engine's sprite.
#[derive(Debug)]
pub struct IndependentSprite {
    /// The colour the image is tinted with.
    pub color: Color,
    /// Mirror the image along the x axis.
    pub flip_x: bool,
    /// Mirror the image along the y axis.
    pub flip_y: bool,
    /// The size to draw at, where it is not the size of the image.
    pub custom_size: Option<Vec2>,
    /// The part of the image that the engine's own sprites are cut to. The
    /// extractor hands the whole image on, whatever stands here.
    pub rect: Option<Rect>,
    /// The point of the sprite that sits at its position.
    pub anchor: Anchor,
}

/// What a sprite cut from a texture atlas is drawn with: the attributes of the
/// engine's atlas sprite.
#[derive(Debug)]
pub struct IndependentTextureAtlasSprite {
    /// The colour the image is tinted with.
    pub color: Color,
    /// Which rectangle of the atlas is drawn.
    pub index: usize,
    /// Mirror the image along the x axis.
    pub flip_x: bool,
    /// Mirror the image along the y axis.
    pub flip_y: bool,
    /// The size to draw at, where it is not the size of the rectangle.
    pub custom_size: Option<Vec2>,
    /// The point of the sprite that sits at its position.
    pub anchor: Anchor,
}

impl IndependentSprite {
    /// Whether nothing but the engine's default colour and anchor is set: no
    /// mirroring, no size of its own, no cut.
    pub open spec fn is_plain(self) -> bool {
        &&& !self.flip_x
        &&& !self.flip_y
        &&& self.custom_size is None
        &&& self.rect is None
    }
}

impl IndependentTextureAtlasSprite {
    /// Whether nothing but the engine's default colour and anchor is set: the
    /// first rectangle, no mirroring, no size of its own.
    pub open spec fn is_plain(self) -> bool {
        &&& self.index == 0
        &&& !self.flip_x
        &&& !self.flip_y
        &&& self.custom_size is None
    }
}

impl Default for IndependentSprite {
    /// The engine's default colour and anchor, and nothing else set.
    fn default() -> (sprite: Self)
        ensures
            sprite.is_plain(),
    {
        IndependentSprite {
            color: default_color(),
            flip_x: false,
            flip_y: false,
            custom_size: None,
            rect: None,
            anchor: default_anchor(),
        }
    }
}

impl Default for IndependentTextureAtlasSprite {
    /// The engine's default colour and anchor, the first rectangle of the
    /// atlas, and nothing else set.
    fn default() -> (sprite: Self)
        ensures
            sprite.is_plain(),
    {
        IndependentTextureAtlasSprite {
            color: default_color(),
            index: 0,
            flip_x: false,
            flip_y: false,
            custom_size: None,
            anchor: default_anchor(),
        }
    }
}

impl Clone for IndependentSprite {
    fn clone(&self) -> (copy: Self)
        ensures
            copy == *self,
    {
        IndependentSprite {
            color: self.color,
            flip_x: self.flip_x,
            flip_y: self.flip_y,
            custom_size: self.custom_size,
            rect: self.rect,
            anchor: self.anchor.clone(),
        }
    }
}

impl Clone for IndependentTextureAtlasSprite {
    fn clone(&self) -> (copy: Self)
        ensures
            copy == *self,
    {
        IndependentTextureAtlasSprite {
            color: self.color,
            index: self.index,
            flip_x: self.flip_x,
            flip_y: self.flip_y,
            custom_size: self.custom_size,
            anchor: self.anchor.clone(),
        }
    }
}

/// The local transform of an entity that takes no part in the propagation of
/// transforms through the scene graph.
#[derive(Clone, Copy, Debug, Default)]
pub struct IndependentTransform(pub Transform);

/// The transform an entity is drawn with. The composer alone writes it.
#[derive(Clone, Copy, Debug, Default)]
pub struct ComputedTransform(pub GlobalTransform);

impl ComputedTransform {
    /// Rotation and scale of the transform, as the matrix the engine holds
    /// them in.
    pub fn matrix(&self) -> (m: Mat3A)
        ensures
            m == matrix_of(self.0),
    {
        matrix(&self.0)
    }
}

/// Everything an entity with a plain sprite and an independent transform is
/// spawned with.
#[derive(Debug)]
pub struct IndependentSpriteBundle {
    pub sprite: IndependentSprite,
    pub transform: Transform,
    pub global_transform: GlobalTransform,
    /// The identity of the sprite's image.
    pub texture: HandleId,
    pub visibility: Visibility,
    pub computed_visibility: ComputedVisibility,
    pub independent_transform: IndependentTransform,
    pub computed_transform: ComputedTransform,
}

impl Default for IndependentSpriteBundle {
    /// The engine's defaults throughout, with the engine's fallback image.
    fn default() -> (bundle: Self)
        ensures
            bundle.sprite.is_plain(),
    {
        IndependentSpriteBundle {
            sprite: IndependentSprite::default(),
            transform: default_transform(),
            global_transform: default_global_transform(),
            texture: default_image(),
            visibility: default_visibility(),
            computed_visibility: default_computed_visibility(),
            independent_transform: IndependentTransform(default_transform()),
            computed_transform: ComputedTransform(default_global_transform()),
        }
    }
}

impl Clone for IndependentSpriteBundle {
    fn clone(&self) -> (copy: Self)
        ensures
            copy == *self,
    {
        IndependentSpriteBundle {
            sprite: self.sprite.clone(),
            transform: self.transform,
            global_transform: self.global_transform,
            texture: self.texture,
            visibility: self.visibility.clone(),
            computed_visibility: self.computed_visibility.clone(),
            independent_transform: self.independent_transform,
            computed_transform: self.computed_transform,
        }
    }
}

/// Everything an entity with an atlas sprite and an independent transform is
/// spawned with.
#[derive(Debug)]
pub struct IndependentSpriteSpriteBundle {
    pub sprite: IndependentTextureAtlasSprite,
    pub transform: Transform,
    pub global_transform: GlobalTransform,
    /// The identity of the atlas the sprite is cut from.
    pub texture_atlas: HandleId,
    pub visibility: Visibility,
    pub computed_visibility: ComputedVisibility,
    pub independent_transform: IndependentTransform,
    pub computed_transform: ComputedTransform,
}

impl Default for IndependentSpriteSpriteBundle {
    /// The engine's defaults throughout, with the identity of an empty handle
    /// for the atlas.
    fn default() -> (bundle: Self)
        ensures
            bundle.sprite.is_plain(),
    {
        IndependentSpriteSpriteBundle {
            sprite: IndependentTextureAtlasSprite::default(),
            transform: default_transform(),
            global_transform: default_global_transform(),
            texture_atlas: default_texture_atlas(),
            visibility: default_visibility(),
            computed_visibility: default_computed_visibility(),
            independent_transform: IndependentTransform(default_transform()),
            computed_transform: ComputedTransform(default_global_transform()),
        }
    }
}

impl Clone for IndependentSpriteSpriteBundle {
    fn clone(&self) -> (copy: Self)
        ensures
            copy == *self,
    {
        IndependentSpriteSpriteBundle {
            sprite: self.sprite.clone(),
            transform: self.transform,
            global_transform: self.global_transform,
            texture_atlas: self.texture_atlas,
            visibility: self.visibility.clone(),
            computed_visibility: self.computed_visibility.clone(),
            independent_transform: self.independent_transform,
            computed_transform: self.computed_transform,
        }
    }
}

} // verus!
