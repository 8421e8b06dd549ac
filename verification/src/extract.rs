//! The sprite extractor.

use vstd::prelude::*;

use bevy::asset::HandleId;
use bevy::ecs::entity::Entity;
use bevy::math::{Rect, Vec2};
use bevy::render::color::Color;
use bevy::transform::components::GlobalTransform;

use crate::atlas::Atlas;
use crate::components::{ComputedTransform, IndependentSprite, IndependentTextureAtlasSprite};
use crate::host::{
    anchor_point, anchor_vec, append, atlases_of, lookup, place_at, transform_at, translation,
    translation_of, TextureAtlases,
};

verus! {

/// What the renderer is told about one sprite in one frame.
#[derive(Clone, Copy, Debug)]
pub struct ExtractionRecord {
    /// The entity the sprite belongs to.
    pub entity: Entity,
    /// Where the sprite is drawn: a translation, without rotation or scale.
    pub transform: GlobalTransform,
    /// The colour the image is tinted with.
    pub color: Color,
    /// The part of the image that is drawn; the whole image where there is
    /// none.
    pub rect: Option<Rect>,
    /// The size to draw at, where it is not the size of the image.
    pub custom_size: Option<Vec2>,
    /// The image that is drawn.
    pub image_handle_id: HandleId,
    /// Mirror the image along the x axis.
    pub flip_x: bool,
    /// Mirror the image along the y axis.
    pub flip_y: bool,
    /// The offset of the sprite's anchor.
    pub anchor: Vec2,
}

/// An entity with a plain sprite, as the extractor sees it.
#[derive(Debug)]
pub struct SpriteRow {
    /// The entity.
    pub entity: Entity,
    /// Whether the entity is visible in this frame.
    pub visible: bool,
    /// Its sprite.
    pub sprite: IndependentSprite,
    /// Its computed transform.
    pub transform: ComputedTransform,
    /// The image of the sprite.
    pub image: HandleId,
}

/// An entity with an atlas sprite, as the extractor sees it.
#[derive(Debug)]
pub struct AtlasSpriteRow {
    /// The entity.
    pub entity: Entity,
    /// Whether the entity is visible in this frame.
    pub visible: bool,
    /// Its sprite.
    pub sprite: IndependentTextureAtlasSprite,
    /// Its computed transform.
    pub transform: ComputedTransform,
    /// The atlas the sprite is cut from.
    pub atlas: HandleId,
}

/// Where a sprite with the computed transform `computed` is drawn: the
/// identity transform, moved to the translation of `computed`. Rotation and
/// scale of `computed` do not enter.
pub open spec fn placed(computed: ComputedTransform) -> GlobalTransform {
    transform_at(translation_of(computed.0))
}

impl SpriteRow {
    /// The record of this entity: none where it is invisible. The record has
    /// the translation of the computed transform and nothing else of it, and
    /// shows the whole image.
    pub open spec fn record(self) -> Option<ExtractionRecord> {
        if self.visible {
            Some(
                ExtractionRecord {
                    entity: self.entity,
                    transform: placed(self.transform),
                    color: self.sprite.color,
                    rect: None,
                    custom_size: self.sprite.custom_size,
                    image_handle_id: self.image,
                    flip_x: self.sprite.flip_x,
                    flip_y: self.sprite.flip_y,
                    anchor: anchor_vec(self.sprite.anchor),
                },
            )
        } else {
            None
        }
    }
}

impl AtlasSpriteRow {
    /// Whether this entity gives a record: it is visible, its atlas is
    /// loaded, and its index selects a rectangle that the atlas has.
    pub open spec fn drawn(self, atlases: Map<HandleId, Atlas>) -> bool {
        &&& self.visible
        &&& atlases.contains_key(self.atlas)
        &&& self.sprite.index < atlases[self.atlas].textures.len()
    }

    /// The record of this entity: none where it is invisible, its atlas is
    /// not loaded, or its index is past the rectangles of the atlas. The
    /// record has the translation of the computed transform and nothing else
    /// of it, and shows the rectangle that the sprite's index selects in the
    /// image of the atlas.
    pub open spec fn record(self, atlases: Map<HandleId, Atlas>) -> Option<ExtractionRecord> {
        if self.drawn(atlases) {
            let atlas = atlases[self.atlas];
            Some(
                ExtractionRecord {
                    entity: self.entity,
                    transform: placed(self.transform),
                    color: self.sprite.color,
                    rect: Some(atlas.textures[self.sprite.index as int]),
                    custom_size: self.sprite.custom_size,
                    image_handle_id: atlas.texture,
                    flip_x: self.sprite.flip_x,
                    flip_y: self.sprite.flip_y,
                    anchor: anchor_vec(self.sprite.anchor),
                },
            )
        } else {
            None
        }
    }
}

/// The records of the plain sprites, in the order of their entities.
pub open spec fn sprite_records(sprites: Seq<SpriteRow>) -> Seq<ExtractionRecord> {
    sprites.filter_map(|row: SpriteRow| row.record())
}

/// The records of the atlas sprites, in the order of their entities.
pub open spec fn atlas_records(
    atlas_sprites: Seq<AtlasSpriteRow>,
    atlases: Map<HandleId, Atlas>,
) -> Seq<ExtractionRecord> {
    atlas_sprites.filter_map(|row: AtlasSpriteRow| row.record(atlases))
}

/// Appends one record for every sprite that is drawn: first the plain sprites,
/// then the atlas sprites, each group in the order given. An invisible
/// entity gives none, and neither does an atlas sprite whose atlas is not
/// loaded or whose index is past the rectangles of its atlas. What the buffer
/// held stays in front. Every record sits at the translation of its entity's
/// computed transform.
pub fn extract_independent_sprites(
    extracted_sprites: &mut Vec<ExtractionRecord>,
    texture_atlases: &TextureAtlases,
    sprites: &Vec<SpriteRow>,
    atlas_sprites: &Vec<AtlasSpriteRow>,
)
    ensures
        final(extracted_sprites)@ == old(extracted_sprites)@ + sprite_records(sprites@) + atlas_records(
            atlas_sprites@,
            atlases_of(*texture_atlases),
        ),
        forall|k: int|
            0 <= k < sprites@.len() && (#[trigger] sprites@[k]).visible ==> translation_of(
                placed(sprites@[k].transform),
            ) == translation_of(sprites@[k].transform.0),
        forall|k: int|
            0 <= k < atlas_sprites@.len() && (#[trigger] atlas_sprites@[k]).drawn(
                atlases_of(*texture_atlases),
            ) ==> translation_of(placed(atlas_sprites@[k].transform)) == translation_of(
                atlas_sprites@[k].transform.0,
            ),
{
    let ghost before = extracted_sprites@;
    let ghost atlases = atlases_of(*texture_atlases);
    let ghost plain = |row: SpriteRow| row.record();
    let ghost cut = |row: AtlasSpriteRow| row.record(atlases);

    let n = sprites.len();
    let mut i: usize = 0;
    assert(sprites@.take(0).filter_map(plain) =~= Seq::empty());
    while i < n
        invariant
            n == sprites@.len(),
            i <= n,
            plain == |row: SpriteRow| row.record(),
            extracted_sprites@ == before + sprites@.take(i as int).filter_map(plain),
            forall|k: int|
                0 <= k < i && (#[trigger] sprites@[k]).visible ==> translation_of(
                    placed(sprites@[k].transform),
                ) == translation_of(sprites@[k].transform.0),
        decreases n - i,
    {
        let row = &sprites[i];
        proof {
            sprites@.lemma_filter_map_take_succ(plain, i as int);
        }
        if row.visible {
            let transform = place_at(translation(&row.transform.0));
            append(
                extracted_sprites,
                ExtractionRecord {
                    entity: row.entity,
                    transform,
                    color: row.sprite.color,
                    rect: None,
                    custom_size: row.sprite.custom_size,
                    image_handle_id: row.image,
                    flip_x: row.sprite.flip_x,
                    flip_y: row.sprite.flip_y,
                    anchor: anchor_point(&row.sprite.anchor),
                },
            );
        }
        i += 1;
    }
    assert(sprites@.take(n as int) =~= sprites@);

    let ghost middle = extracted_sprites@;
    let m = atlas_sprites.len();
    let mut j: usize = 0;
    assert(atlas_sprites@.take(0).filter_map(cut) =~= Seq::empty());
    while j < m
        invariant
            m == atlas_sprites@.len(),
            j <= m,
            atlases == atlases_of(*texture_atlases),
            cut == |row: AtlasSpriteRow| row.record(atlases),
            extracted_sprites@ == middle + atlas_sprites@.take(j as int).filter_map(cut),
            forall|k: int|
                0 <= k < j && (#[trigger] atlas_sprites@[k]).drawn(atlases) ==> translation_of(
                    placed(atlas_sprites@[k].transform),
                ) == translation_of(atlas_sprites@[k].transform.0),
        decreases m - j,
    {
        let row = &atlas_sprites[j];
        proof {
            atlas_sprites@.lemma_filter_map_take_succ(cut, j as int);
        }
        if row.visible {
            if let Some(atlas) = lookup(texture_atlases, row.atlas) {
                if row.sprite.index < atlas.textures.len() {
                    let rect = Some(atlas.textures[row.sprite.index]);
                    let transform = place_at(translation(&row.transform.0));
                    append(
                        extracted_sprites,
                        ExtractionRecord {
                            entity: row.entity,
                            transform,
                            color: row.sprite.color,
                            rect,
                            custom_size: row.sprite.custom_size,
                            image_handle_id: atlas.texture,
                            flip_x: row.sprite.flip_x,
                            flip_y: row.sprite.flip_y,
                            anchor: anchor_point(&row.sprite.anchor),
                        },
                    );
                }
            }
        }
        j += 1;
    }
    assert(atlas_sprites@.take(m as int) =~= atlas_sprites@);
}

/// Filtering and mapping a concatenation is the same as doing so to each part.
proof fn lemma_filter_map_concat<A, B>(a: Seq<A>, b: Seq<A>, f: spec_fn(A) -> Option<B>)
    ensures
        (a + b).filter_map(f) == a.filter_map(f) + b.filter_map(f),
    decreases b.len(),
{
    if b.len() == 0 {
        assert(a + b =~= a);
        assert(a.filter_map(f) + b.filter_map(f) =~= a.filter_map(f));
    } else {
        lemma_filter_map_concat(a, b.drop_last(), f);
        assert((a + b).drop_last() =~= a + b.drop_last());
        assert((a + b).last() == b.last());
        assert((a + b).filter_map(f) =~= a.filter_map(f) + b.filter_map(f));
    }
}

/// One element among others gives what it is mapped to, between what the
/// others give: nothing where it is mapped to `None`.
proof fn lemma_filter_map_one<A, B>(front: Seq<A>, one: A, back: Seq<A>, f: spec_fn(A) -> Option<B>)
    ensures
        f(one) is None ==> (front + seq![one] + back).filter_map(f) == (front + back).filter_map(f),
        f(one) is Some ==> (front + seq![one] + back).filter_map(f) == front.filter_map(f)
            + seq![f(one)->0] + back.filter_map(f),
{
    Seq::lemma_filter_map_singleton(one, f);
    lemma_filter_map_concat(front, seq![one], f);
    lemma_filter_map_concat(front + seq![one], back, f);
    lemma_filter_map_concat(front, back, f);
    assert(front.filter_map(f) + Seq::<B>::empty() =~= front.filter_map(f));
}

/// The entities are extracted one by one: the records of a list of plain
/// sprites are the records of its front, then those of its back.
pub proof fn lemma_sprite_records_concat(front: Seq<SpriteRow>, back: Seq<SpriteRow>)
    ensures
        sprite_records(front + back) == sprite_records(front) + sprite_records(back),
{
    lemma_filter_map_concat(front, back, |row: SpriteRow| row.record());
}

/// The entities are extracted one by one: the records of a list of atlas
/// sprites are the records of its front, then those of its back.
pub proof fn lemma_atlas_records_concat(
    front: Seq<AtlasSpriteRow>,
    back: Seq<AtlasSpriteRow>,
    atlases: Map<HandleId, Atlas>,
)
    ensures
        atlas_records(front + back, atlases) == atlas_records(front, atlases) + atlas_records(
            back,
            atlases,
        ),
{
    lemma_filter_map_concat(front, back, |row: AtlasSpriteRow| row.record(atlases));
}

/// A visible plain sprite gives exactly one record, wherever it stands among
/// the others.
pub proof fn lemma_visible_sprite_gives_one_record(
    front: Seq<SpriteRow>,
    row: SpriteRow,
    back: Seq<SpriteRow>,
)
    requires
        row.visible,
    ensures
        sprite_records(front + seq![row] + back) == sprite_records(front) + seq![row.record()->0]
            + sprite_records(back),
{
    lemma_filter_map_one(front, row, back, |row: SpriteRow| row.record());
}

/// An invisible plain sprite gives no record, whatever its other components
/// hold: the records are those of the entities around it.
pub proof fn lemma_invisible_sprite_gives_no_record(
    front: Seq<SpriteRow>,
    row: SpriteRow,
    back: Seq<SpriteRow>,
)
    requires
        !row.visible,
    ensures
        sprite_records(front + seq![row] + back) == sprite_records(front + back),
{
    lemma_filter_map_one(front, row, back, |row: SpriteRow| row.record());
}

/// An invisible atlas sprite gives no record, whether or not its atlas is
/// loaded: the records are those of the entities around it.
pub proof fn lemma_invisible_atlas_sprite_gives_no_record(
    front: Seq<AtlasSpriteRow>,
    row: AtlasSpriteRow,
    back: Seq<AtlasSpriteRow>,
    atlases: Map<HandleId, Atlas>,
)
    requires
        !row.visible,
    ensures
        atlas_records(front + seq![row] + back, atlases) == atlas_records(front + back, atlases),
{
    lemma_filter_map_one(front, row, back, |row: AtlasSpriteRow| row.record(atlases));
}

/// A visible atlas sprite whose atlas is not loaded gives no record. Once the
/// atlas is there, and has the rectangle that the sprite selects, it gives
/// exactly one, between the records of the entities around it.
pub proof fn lemma_atlas_sprite_waits_for_its_atlas(
    front: Seq<AtlasSpriteRow>,
    row: AtlasSpriteRow,
    back: Seq<AtlasSpriteRow>,
    atlases: Map<HandleId, Atlas>,
    atlas: Atlas,
)
    requires
        row.visible,
        !atlases.contains_key(row.atlas),
        row.sprite.index < atlas.textures.len(),
    ensures
        atlas_records(front + seq![row] + back, atlases) == atlas_records(front + back, atlases),
        atlas_records(front + seq![row] + back, atlases.insert(row.atlas, atlas)) == atlas_records(
            front,
            atlases.insert(row.atlas, atlas),
        ) + seq![row.record(atlases.insert(row.atlas, atlas))->0] + atlas_records(
            back,
            atlases.insert(row.atlas, atlas),
        ),
{
    let loaded = atlases.insert(row.atlas, atlas);
    lemma_filter_map_one(front, row, back, |row: AtlasSpriteRow| row.record(atlases));
    lemma_filter_map_one(front, row, back, |row: AtlasSpriteRow| row.record(loaded));
}

/// An atlas sprite whose index is past the rectangles of its atlas gives no
/// record: the records are those of the entities around it.
pub proof fn lemma_index_past_atlas_gives_no_record(
    front: Seq<AtlasSpriteRow>,
    row: AtlasSpriteRow,
    back: Seq<AtlasSpriteRow>,
    atlases: Map<HandleId, Atlas>,
)
    requires
        atlases.contains_key(row.atlas),
        row.sprite.index >= atlases[row.atlas].textures.len(),
    ensures
        atlas_records(front + seq![row] + back, atlases) == atlas_records(front + back, atlases),
{
    lemma_filter_map_one(front, row, back, |row: AtlasSpriteRow| row.record(atlases));
}

} // verus!
