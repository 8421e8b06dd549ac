//! Sprites whose placement ignores the orientation and scale of their parents.
//!
//! An entity carries a local transform of its own, the independent transform,
//! beside the world transform that the scene graph propagates to it. Once per
//! frame the composer writes the entity's computed transform: rotation and
//! scale of the independent transform, placed at the independent translation
//! plus the translation of the world transform. The extractor then turns every
//! visible sprite into one record for the renderer.
//!
//! The engine's values (transforms, colours, rectangles, handles) are carried
//! through as they are. What is computed by the engine is reached through the
//! functions of [`host`], whose contracts are taken on trust.
pub mod atlas;
pub mod components;
pub mod compose;
pub mod extract;
pub mod host;
pub mod plugin;

pub use atlas::{Atlas, LoadedAtlas};
pub use components::{
    ComputedTransform, IndependentSprite, IndependentSpriteBundle, IndependentSpriteSpriteBundle,
    IndependentTextureAtlasSprite, IndependentTransform,
};
pub use compose::{compose, compute_transform, TransformRow};
pub use extract::{extract_independent_sprites, AtlasSpriteRow, ExtractionRecord, SpriteRow};
pub use host::TextureAtlases;
pub use plugin::{
    ComponentType, IndependentSpritePlugin, Plan, Predecessor, Scheduled, Stage, System,
};
