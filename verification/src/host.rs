//! The engine's types and the calls into it.
//!
//! Nothing in this module is proved. Every type here is opaque to the
//! verifier, the engine's collection of texture atlases included, and every
//! function with a body is believed to meet its contract. A function without
//! a body names the value that one engine call returns, or what the
//! collection holds: the value is known only as "what the engine gives for
//! these arguments".

use vstd::prelude::*;

use bevy::asset::{Assets, Handle, HandleId};
use bevy::ecs::entity::Entity;
use bevy::math::{Mat3A, Rect, Vec2, Vec3A};
use bevy::render::color::Color;
use bevy::render::texture::{Image, DEFAULT_IMAGE_HANDLE};
use bevy::render::view::{ComputedVisibility, Visibility};
use bevy::sprite::{Anchor, TextureAtlas};
use bevy::transform::components::{GlobalTransform, Transform};
use copyless::VecHelper;

use crate::atlas::{Atlas, LoadedAtlas};

verus! {

/// `bevy::transform::components::Transform`: translation, rotation and scale.
#[verifier::external_type_specification]
#[verifier::external_body]
pub struct ExTransform(Transform);

/// `bevy::transform::components::GlobalTransform`: an affine transform, held
/// as a 3x3 matrix and a translation.
#[verifier::external_type_specification]
#[verifier::external_body]
pub struct ExGlobalTransform(GlobalTransform);

/// `bevy::math::Vec3A`: three single-precision coordinates.
#[verifier::external_type_specification]
#[verifier::external_body]
pub struct ExVec3A(Vec3A);

/// `bevy::math::Mat3A`: a 3x3 matrix of single-precision numbers.
#[verifier::external_type_specification]
#[verifier::external_body]
pub struct ExMat3A(Mat3A);

/// `bevy::math::Vec2`: two single-precision coordinates.
#[verifier::external_type_specification]
#[verifier::external_body]
pub struct ExVec2(Vec2);

/// `bevy::math::Rect`: a rectangle, given by two corners.
#[verifier::external_type_specification]
#[verifier::external_body]
pub struct ExRect(Rect);

/// `bevy::render::color::Color`.
#[verifier::external_type_specification]
#[verifier::external_body]
pub struct ExColor(Color);

/// `bevy::sprite::Anchor`: the point of a sprite that sits at its position.
#[verifier::external_type_specification]
#[verifier::external_body]
pub struct ExAnchor(Anchor);

/// `bevy::ecs::entity::Entity`: the identity of an entity.
#[verifier::external_type_specification]
#[verifier::external_body]
pub struct ExEntity(Entity);

/// `bevy::asset::HandleId`: the identity of an asset.
#[verifier::external_type_specification]
#[verifier::external_body]
pub struct ExHandleId(HandleId);

/// `bevy::render::view::Visibility`: whether the user wants an entity shown.
#[verifier::external_type_specification]
#[verifier::external_body]
pub struct ExVisibility(Visibility);

/// `bevy::render::view::ComputedVisibility`: whether the engine found an
/// entity visible in this frame.
#[verifier::external_type_specification]
#[verifier::external_body]
pub struct ExComputedVisibility(ComputedVisibility);

/// The affine transform that `Transform::compute_affine` builds from a
/// translation, a rotation and a scale.
pub uninterp spec fn affine_of(local: Transform) -> GlobalTransform;

/// The translation of a `Transform`, its field `translation`, as the three
/// aligned coordinates that `Vec3A::from` makes of it.
pub uninterp spec fn local_translation_of(local: Transform) -> Vec3A;

/// The translation that `GlobalTransform::translation_vec3a` reads.
pub uninterp spec fn translation_of(transform: GlobalTransform) -> Vec3A;

/// The field `matrix3` of the affine transform that `GlobalTransform::affine`
/// returns: rotation and scale, everything of the transform but its
/// translation.
pub uninterp spec fn matrix_of(transform: GlobalTransform) -> Mat3A;

/// The sum that `Vec3A`'s `+` computes, coordinate by coordinate.
pub uninterp spec fn vec_sum(a: Vec3A, b: Vec3A) -> Vec3A;

/// `transform` after its translation was overwritten with `translation`
/// through `GlobalTransform::translation_mut`.
pub uninterp spec fn with_translation(transform: GlobalTransform, translation: Vec3A) -> GlobalTransform;

/// The identity transform, `GlobalTransform::default()`, after its translation
/// was overwritten with `translation`.
pub uninterp spec fn transform_at(translation: Vec3A) -> GlobalTransform;

/// Calls `Transform::compute_affine` and wraps the matrix in a
/// `GlobalTransform`. The engine computes it from the three fields of `local`
/// alone; the contract gives the result its name.
#[verifier::external_body]
pub(crate) fn to_affine(local: &Transform) -> (affine: GlobalTransform)
    ensures
        affine == affine_of(*local),
{
    GlobalTransform::from(local.compute_affine())
}

/// Reads the field `translation` of `local` and converts it with
/// `Vec3A::from`, which keeps the three coordinates.
#[verifier::external_body]
pub(crate) fn local_translation(local: &Transform) -> (at: Vec3A)
    ensures
        at == local_translation_of(*local),
{
    Vec3A::from(local.translation)
}

/// Calls `GlobalTransform::affine`, which returns the affine transform held,
/// and hands on its field `matrix3`.
#[verifier::external_body]
pub(crate) fn matrix(transform: &GlobalTransform) -> (m: Mat3A)
    ensures
        m == matrix_of(*transform),
{
    transform.affine().matrix3
}

/// Calls `GlobalTransform::translation_vec3a`, which returns the translation
/// held in the transform.
#[verifier::external_body]
pub(crate) fn translation(transform: &GlobalTransform) -> (at: Vec3A)
    ensures
        at == translation_of(*transform),
{
    transform.translation_vec3a()
}

/// Adds two vectors with `Vec3A`'s `+`, which adds the coordinates pairwise.
#[verifier::external_body]
pub(crate) fn vec_add(a: Vec3A, b: Vec3A) -> (sum: Vec3A)
    ensures
        sum == vec_sum(a, b),
{
    a + b
}

/// Assigns through `GlobalTransform::translation_mut`, which hands out the
/// translation held in the transform. `translation_vec3a` reads that same
/// field: the translation read back is the one written. The matrix is
/// another field and is not touched: it is what it was.
#[verifier::external_body]
pub(crate) fn set_translation(transform: &mut GlobalTransform, to: Vec3A)
    ensures
        *final(transform) == with_translation(*old(transform), to),
        translation_of(*final(transform)) == to,
        matrix_of(*final(transform)) == matrix_of(*old(transform)),
{
    *transform.translation_mut() = to;
}

/// Takes `GlobalTransform::default()`, the identity, and assigns `to` through
/// `GlobalTransform::translation_mut`. The translation read back is the one
/// written.
#[verifier::external_body]
pub(crate) fn place_at(to: Vec3A) -> (placed: GlobalTransform)
    ensures
        placed == transform_at(to),
        translation_of(placed) == to,
{
    let mut placed = GlobalTransform::default();
    *placed.translation_mut() = to;
    placed
}

/// `Anchor`'s `clone`, which the engine derives: the copy is the anchor
/// itself.
pub assume_specification[ <Anchor as Clone>::clone ](anchor: &Anchor) -> (copy: Anchor)
    ensures
        copy == *anchor,
;

/// `Visibility`'s `clone`, which the engine derives: the copy is the value
/// itself.
pub assume_specification[ <Visibility as Clone>::clone ](visibility: &Visibility) -> (copy: Visibility)
    ensures
        copy == *visibility,
;

/// `ComputedVisibility`'s `clone`, which the engine derives: the copy is the
/// value itself.
pub assume_specification[ <ComputedVisibility as Clone>::clone ](visibility: &ComputedVisibility) -> (copy: ComputedVisibility)
    ensures
        copy == *visibility,
;

/// The offset that `Anchor::as_vec` gives for an anchor.
pub uninterp spec fn anchor_vec(anchor: Anchor) -> Vec2;

/// Calls `Anchor::as_vec`, which maps each named anchor to a fixed offset and
/// a custom anchor to the offset it holds.
#[verifier::external_body]
pub(crate) fn anchor_point(anchor: &Anchor) -> (offset: Vec2)
    ensures
        offset == anchor_vec(*anchor),
{
    anchor.as_vec()
}

/// The engine's collection of texture atlases, `Assets<TextureAtlas>`, as it
/// stands in one frame. An atlas that is still loading is not in it.
#[verifier::external_body]
pub struct TextureAtlases<'a> {
    pub assets: &'a Assets<TextureAtlas>,
}

/// The atlases that the collection holds, by the identity of their asset.
pub uninterp spec fn atlases_of(atlases: TextureAtlases) -> Map<HandleId, Atlas>;

/// Calls `Assets::get` with a weak handle made of `id`. The engine looks `id`
/// up in its map of assets: what comes back is the atlas stored under `id`,
/// or nothing where there is none. Of the atlas found, the identity of its
/// image and its list of rectangles are handed on.
#[verifier::external_body]
pub(crate) fn lookup<'a>(atlases: &TextureAtlases<'a>, id: HandleId) -> (found: Option<LoadedAtlas<'a>>)
    ensures
        found is Some == atlases_of(*atlases).contains_key(id),
        found is Some ==> found->0@ == atlases_of(*atlases)[id],
{
    atlases.assets.get(&Handle::weak(id)).map(
        |atlas| LoadedAtlas { texture: atlas.texture.id(), textures: &atlas.textures },
    )
}

/// Appends `value` with `copyless`: `alloc` reserves room for one more
/// element where the vector is full, and `init` writes `value` behind the
/// last element and lengthens the vector by one.
#[verifier::external_body]
pub(crate) fn append<T>(buffer: &mut Vec<T>, value: T)
    ensures
        final(buffer)@ == old(buffer)@.push(value),
{
    buffer.alloc().init(value);
}

/// `Color::default()`.
#[verifier::external_body]
pub(crate) fn default_color() -> Color {
    Color::default()
}

/// `Anchor::default()`.
#[verifier::external_body]
pub(crate) fn default_anchor() -> Anchor {
    Anchor::default()
}

/// `Transform::default()`.
#[verifier::external_body]
pub(crate) fn default_transform() -> Transform {
    Transform::default()
}

/// `GlobalTransform::default()`.
#[verifier::external_body]
pub(crate) fn default_global_transform() -> GlobalTransform {
    GlobalTransform::default()
}

/// `Visibility::default()`.
#[verifier::external_body]
pub(crate) fn default_visibility() -> Visibility {
    Visibility::default()
}

/// `ComputedVisibility::default()`.
#[verifier::external_body]
pub(crate) fn default_computed_visibility() -> ComputedVisibility {
    ComputedVisibility::default()
}

/// The identity of the image that the engine falls back to:
/// `DEFAULT_IMAGE_HANDLE`, typed as a handle to an image.
#[verifier::external_body]
pub(crate) fn default_image() -> HandleId {
    DEFAULT_IMAGE_HANDLE.typed::<Image>().id()
}

/// The identity that `Handle::default()` gives a handle to a texture atlas.
#[verifier::external_body]
pub(crate) fn default_texture_atlas() -> HandleId {
    Handle::<TextureAtlas>::default().id()
}

} // verus!
