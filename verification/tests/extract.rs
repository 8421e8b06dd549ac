use bevy::app::App;
use bevy::asset::{AddAsset, AssetPath, AssetPlugin, Assets, Handle, HandleId};
use bevy::math::{Quat, Rect, Vec2, Vec3};
use bevy::prelude::{Color, Entity, GlobalTransform, Transform};
use bevy::render::texture::DEFAULT_IMAGE_HANDLE;
use bevy::sprite::{Anchor, TextureAtlas};
use bevy::utils::Uuid;
use independent_sprite::{
    extract_independent_sprites, AtlasSpriteRow, ComputedTransform, ExtractionRecord,
    IndependentSprite, IndependentTextureAtlasSprite, SpriteRow, TextureAtlases,
};

fn no_atlases() -> Assets<TextureAtlas> {
    let mut app = App::new();
    app.add_plugin(AssetPlugin::default());
    app.add_asset::<TextureAtlas>();
    app.world
        .remove_resource::<Assets<TextureAtlas>>()
        .expect("the asset type was added")
}

fn atlas(image: HandleId, rects: &[Rect]) -> TextureAtlas {
    let mut atlas = TextureAtlas::new_empty(Handle::weak(image), Vec2::new(64.0, 64.0));
    for rect in rects {
        atlas.add_texture(*rect);
    }
    atlas
}

fn one_atlas(under: HandleId, image: HandleId, rects: &[Rect]) -> Assets<TextureAtlas> {
    let mut assets = no_atlases();
    assets.set_untracked(under, atlas(image, rects));
    assets
}

fn extract(
    assets: &Assets<TextureAtlas>,
    sprites: Vec<SpriteRow>,
    atlas_sprites: Vec<AtlasSpriteRow>,
) -> Vec<ExtractionRecord> {
    let mut extracted = Vec::new();
    extract_independent_sprites(&mut extracted, &TextureAtlases { assets }, &sprites, &atlas_sprites);
    extracted
}

fn id(n: u64) -> HandleId {
    HandleId::new(Uuid::from_u128(0x1234_5678_9abc_def0), n)
}

fn turned(x: f32, y: f32, z: f32) -> ComputedTransform {
    ComputedTransform(GlobalTransform::from(Transform {
        translation: Vec3::new(x, y, z),
        rotation: Quat::from_rotation_z(0.5),
        scale: Vec3::new(2.0, 2.0, 2.0),
    }))
}

fn sprite_row(entity: u32, visible: bool) -> SpriteRow {
    SpriteRow {
        entity: Entity::from_raw(entity),
        visible,
        sprite: IndependentSprite::default(),
        transform: ComputedTransform(GlobalTransform::from_xyz(entity as f32, 0.0, 0.0)),
        image: id(100 + entity as u64),
    }
}

fn atlas_row(entity: u32, visible: bool, atlas: HandleId, index: usize) -> AtlasSpriteRow {
    AtlasSpriteRow {
        entity: Entity::from_raw(entity),
        visible,
        sprite: IndependentTextureAtlasSprite {
            index,
            ..IndependentTextureAtlasSprite::default()
        },
        transform: ComputedTransform(GlobalTransform::from_xyz(0.0, entity as f32, 0.0)),
        atlas,
    }
}

fn rects() -> Vec<Rect> {
    vec![
        Rect::new(0.0, 0.0, 16.0, 16.0),
        Rect::new(16.0, 0.0, 32.0, 16.0),
        Rect::new(32.0, 0.0, 48.0, 24.0),
    ]
}

#[test]
fn one_visible_sprite_and_one_invisible_atlas_sprite_give_one_record() {
    let assets = one_atlas(id(1), id(2), &[Rect::new(0.0, 0.0, 8.0, 8.0)]);
    let extracted = extract(
        &assets,
        vec![sprite_row(10, true)],
        vec![atlas_row(11, false, id(1), 0)],
    );
    assert_eq!(extracted.len(), 1);
    assert_eq!(extracted[0].entity, Entity::from_raw(10));
    assert_eq!(extracted[0].rect, None);
}

#[test]
fn a_plain_sprite_is_copied_field_by_field() {
    let row = SpriteRow {
        entity: Entity::from_raw(42),
        visible: true,
        sprite: IndependentSprite {
            color: Color::rgba(0.25, 0.5, 0.75, 1.0),
            flip_x: true,
            flip_y: false,
            custom_size: Some(Vec2::new(3.0, 4.0)),
            rect: Some(Rect::new(1.0, 1.0, 2.0, 2.0)),
            anchor: Anchor::BottomLeft,
        },
        transform: turned(1.0, 2.0, 3.0),
        image: id(7),
    };
    let extracted = extract(&no_atlases(), vec![row], Vec::new());
    assert_eq!(extracted.len(), 1);
    let record = extracted[0];
    assert_eq!(record.entity, Entity::from_raw(42));
    assert_eq!(record.color, Color::rgba(0.25, 0.5, 0.75, 1.0));
    assert!(record.flip_x);
    assert!(!record.flip_y);
    assert_eq!(record.custom_size, Some(Vec2::new(3.0, 4.0)));
    assert_eq!(record.rect, None);
    assert_eq!(record.image_handle_id, id(7));
    assert_eq!(record.anchor, Vec2::new(-0.5, -0.5));
    assert_eq!(record.transform, GlobalTransform::from_xyz(1.0, 2.0, 3.0));
}

#[test]
fn an_atlas_sprite_takes_rectangle_and_image_from_its_atlas() {
    let assets = one_atlas(id(1), id(50), &rects());
    let row = AtlasSpriteRow {
        entity: Entity::from_raw(8),
        visible: true,
        sprite: IndependentTextureAtlasSprite {
            color: Color::RED,
            index: 2,
            flip_x: false,
            flip_y: true,
            custom_size: None,
            anchor: Anchor::Custom(Vec2::new(0.25, -0.125)),
        },
        transform: turned(-1.0, -2.0, 0.5),
        atlas: id(1),
    };
    let extracted = extract(&assets, Vec::new(), vec![row]);
    assert_eq!(extracted.len(), 1);
    let record = extracted[0];
    assert_eq!(record.entity, Entity::from_raw(8));
    assert_eq!(record.color, Color::RED);
    assert!(!record.flip_x);
    assert!(record.flip_y);
    assert_eq!(record.custom_size, None);
    assert_eq!(record.rect, Some(Rect::new(32.0, 0.0, 48.0, 24.0)));
    assert_eq!(record.image_handle_id, id(50));
    assert_eq!(record.anchor, Vec2::new(0.25, -0.125));
    assert_eq!(record.transform, GlobalTransform::from_xyz(-1.0, -2.0, 0.5));
}

#[test]
fn the_record_keeps_the_translation_and_drops_rotation_and_scale() {
    let computed = turned(5.0, 6.0, 7.0);
    assert_ne!(computed.0, GlobalTransform::from_xyz(5.0, 6.0, 7.0));
    let row = SpriteRow { transform: computed, ..sprite_row(1, true) };
    let extracted = extract(&no_atlases(), vec![row], Vec::new());
    assert_eq!(extracted[0].transform, GlobalTransform::from_xyz(5.0, 6.0, 7.0));
    assert_eq!(extracted[0].transform.translation(), Vec3::new(5.0, 6.0, 7.0));

    let assets = one_atlas(id(1), id(2), &rects());
    let row = AtlasSpriteRow { transform: computed, ..atlas_row(2, true, id(1), 0) };
    let extracted = extract(&assets, Vec::new(), vec![row]);
    assert_eq!(extracted[0].transform, GlobalTransform::from_xyz(5.0, 6.0, 7.0));
}

#[test]
fn an_invisible_sprite_gives_no_record() {
    let extracted = extract(
        &no_atlases(),
        vec![sprite_row(1, true), sprite_row(2, false), sprite_row(3, true)],
        Vec::new(),
    );
    let entities: Vec<Entity> = extracted.iter().map(|r| r.entity).collect();
    assert_eq!(entities, vec![Entity::from_raw(1), Entity::from_raw(3)]);
}

#[test]
fn an_invisible_atlas_sprite_gives_no_record_whatever_else_it_holds() {
    let assets = one_atlas(id(1), id(2), &rects());
    let rows = vec![
        atlas_row(1, false, id(1), 0),
        atlas_row(2, false, id(1), 99),
        atlas_row(3, false, id(44), 0),
    ];
    assert!(extract(&assets, Vec::new(), rows).is_empty());
}

#[test]
fn an_atlas_sprite_waits_for_its_atlas() {
    let mut assets = no_atlases();
    let mut extracted = Vec::new();
    let rows = vec![atlas_row(4, true, id(9), 1)];
    extract_independent_sprites(
        &mut extracted,
        &TextureAtlases { assets: &assets },
        &Vec::new(),
        &rows,
    );
    assert!(extracted.is_empty());

    assets.set_untracked(id(9), atlas(id(3), &rects()));
    extract_independent_sprites(
        &mut extracted,
        &TextureAtlases { assets: &assets },
        &Vec::new(),
        &rows,
    );
    assert_eq!(extracted.len(), 1);
    assert_eq!(extracted[0].entity, Entity::from_raw(4));
    assert_eq!(extracted[0].rect, Some(Rect::new(16.0, 0.0, 32.0, 16.0)));
    assert_eq!(extracted[0].image_handle_id, id(3));
}

#[test]
fn an_unloaded_atlas_does_not_disturb_the_other_entities() {
    let assets = one_atlas(id(1), id(2), &rects());
    let with = extract(
        &assets,
        vec![sprite_row(1, true)],
        vec![atlas_row(5, true, id(1), 0), atlas_row(6, true, id(77), 0), atlas_row(7, true, id(1), 1)],
    );
    let without = extract(
        &assets,
        vec![sprite_row(1, true)],
        vec![atlas_row(5, true, id(1), 0), atlas_row(7, true, id(1), 1)],
    );
    assert_eq!(with.len(), 3);
    let seen: Vec<(Entity, Option<Rect>)> = with.iter().map(|r| (r.entity, r.rect)).collect();
    let expected: Vec<(Entity, Option<Rect>)> = without.iter().map(|r| (r.entity, r.rect)).collect();
    assert_eq!(seen, expected);
}

#[test]
fn an_index_past_the_atlas_is_skipped_in_silence() {
    let assets = one_atlas(id(1), id(2), &rects());
    let extracted = extract(
        &assets,
        vec![sprite_row(1, true)],
        vec![
            atlas_row(2, true, id(1), 2),
            atlas_row(3, true, id(1), 3),
            atlas_row(4, true, id(1), usize::MAX),
            atlas_row(5, true, id(1), 0),
        ],
    );
    let entities: Vec<u32> = extracted.iter().map(|r| r.entity.index()).collect();
    assert_eq!(entities, vec![1, 2, 5]);
    assert_eq!(extracted[1].rect, Some(Rect::new(32.0, 0.0, 48.0, 24.0)));
    assert_eq!(extracted[2].rect, Some(Rect::new(0.0, 0.0, 16.0, 16.0)));
}

#[test]
fn an_empty_atlas_has_no_rectangle_to_select() {
    let assets = one_atlas(id(1), id(2), &[]);
    assert!(extract(&assets, Vec::new(), vec![atlas_row(1, true, id(1), 0)]).is_empty());
}

#[test]
fn an_atlas_under_another_identity_does_not_count() {
    let assets = one_atlas(id(1), id(2), &rects());
    assert!(extract(&assets, Vec::new(), vec![atlas_row(4, true, id(5), 0)]).is_empty());
}

#[test]
fn identities_differ_by_type_and_by_number() {
    let stored = HandleId::new(Uuid::from_u128(1), 5);
    let assets = one_atlas(stored, id(2), &rects());
    let rows = vec![
        atlas_row(1, true, HandleId::new(Uuid::from_u128(2), 5), 0),
        atlas_row(2, true, HandleId::new(Uuid::from_u128(1), 6), 0),
        atlas_row(3, true, stored, 0),
    ];
    let extracted = extract(&assets, Vec::new(), rows);
    assert_eq!(extracted.len(), 1);
    assert_eq!(extracted[0].entity, Entity::from_raw(3));
}

#[test]
fn an_atlas_is_found_under_the_identity_of_a_path() {
    let by_path: HandleId = AssetPath::from("sheets/hero.png").into();
    let other: HandleId = AssetPath::from("sheets/villain.png").into();
    let assets = one_atlas(by_path, id(2), &rects());
    let extracted = extract(
        &assets,
        Vec::new(),
        vec![atlas_row(1, true, other, 0), atlas_row(2, true, by_path, 1)],
    );
    assert_eq!(extracted.len(), 1);
    assert_eq!(extracted[0].entity, Entity::from_raw(2));
    assert_eq!(extracted[0].image_handle_id, id(2));
}

#[test]
fn each_sprite_finds_its_own_atlas() {
    let mut assets = no_atlases();
    assets.set_untracked(id(1), atlas(id(10), &[Rect::new(0.0, 0.0, 1.0, 1.0)]));
    assets.set_untracked(id(2), atlas(id(20), &[Rect::new(2.0, 2.0, 3.0, 3.0), Rect::new(4.0, 4.0, 5.0, 5.0)]));
    assets.set_untracked(id(1), atlas(id(11), &[Rect::new(0.0, 0.0, 2.0, 2.0)]));
    let extracted = extract(
        &assets,
        Vec::new(),
        vec![atlas_row(1, true, id(2), 1), atlas_row(2, true, id(1), 0)],
    );
    assert_eq!(extracted.len(), 2);
    assert_eq!(extracted[0].image_handle_id, id(20));
    assert_eq!(extracted[0].rect, Some(Rect::new(4.0, 4.0, 5.0, 5.0)));
    assert_eq!(extracted[1].image_handle_id, id(11));
    assert_eq!(extracted[1].rect, Some(Rect::new(0.0, 0.0, 2.0, 2.0)));
}

#[test]
fn plain_sprites_come_before_atlas_sprites_each_in_order() {
    let assets = one_atlas(id(1), id(2), &rects());
    let extracted = extract(
        &assets,
        vec![sprite_row(30, true), sprite_row(10, true), sprite_row(20, false)],
        vec![
            atlas_row(5, true, id(1), 0),
            atlas_row(6, true, id(77), 0),
            atlas_row(4, true, id(1), 2),
        ],
    );
    let entities: Vec<u32> = extracted.iter().map(|r| r.entity.index()).collect();
    assert_eq!(entities, vec![30, 10, 5, 4]);
}

#[test]
fn records_are_appended_behind_what_the_buffer_holds() {
    let kept = ExtractionRecord {
        entity: Entity::from_raw(1000),
        transform: GlobalTransform::from_xyz(9.0, 9.0, 9.0),
        color: Color::BLUE,
        rect: Some(Rect::new(0.0, 0.0, 1.0, 1.0)),
        custom_size: None,
        image_handle_id: id(1),
        flip_x: true,
        flip_y: true,
        anchor: Vec2::new(0.5, 0.5),
    };
    let mut extracted = vec![kept];
    let assets = no_atlases();
    extract_independent_sprites(
        &mut extracted,
        &TextureAtlases { assets: &assets },
        &vec![sprite_row(1, true), sprite_row(2, true)],
        &Vec::new(),
    );
    assert_eq!(extracted.len(), 3);
    assert_eq!(extracted[0].entity, Entity::from_raw(1000));
    assert_eq!(extracted[0].color, Color::BLUE);
    assert_eq!(extracted[0].transform, GlobalTransform::from_xyz(9.0, 9.0, 9.0));
    assert_eq!(extracted[1].entity, Entity::from_raw(1));
    assert_eq!(extracted[2].entity, Entity::from_raw(2));
}

#[test]
fn many_records_fill_the_buffer_in_order() {
    let sprites: Vec<SpriteRow> = (0..100).map(|n| sprite_row(n, n % 3 != 0)).collect();
    let mut extracted = Vec::with_capacity(1);
    let assets = no_atlases();
    extract_independent_sprites(
        &mut extracted,
        &TextureAtlases { assets: &assets },
        &sprites,
        &Vec::new(),
    );
    let entities: Vec<u32> = extracted.iter().map(|r| r.entity.index()).collect();
    let expected: Vec<u32> = (0..100).filter(|n| n % 3 != 0).collect();
    assert_eq!(entities, expected);
    assert_eq!(extracted[0].transform, GlobalTransform::from_xyz(1.0, 0.0, 0.0));
    assert_eq!(extracted[0].image_handle_id, id(101));
}

#[test]
fn nothing_to_extract_leaves_the_buffer_as_it_is() {
    assert!(extract(&no_atlases(), Vec::new(), Vec::new()).is_empty());
}

#[test]
fn default_sprite_is_drawn_white_and_centred() {
    let extracted = extract(
        &no_atlases(),
        vec![SpriteRow { image: DEFAULT_IMAGE_HANDLE.id, ..sprite_row(0, true) }],
        Vec::new(),
    );
    assert_eq!(extracted[0].color, Color::WHITE);
    assert_eq!(extracted[0].anchor, Vec2::ZERO);
    assert_eq!(extracted[0].custom_size, None);
    assert!(!extracted[0].flip_x && !extracted[0].flip_y);
    assert_eq!(extracted[0].image_handle_id, DEFAULT_IMAGE_HANDLE.id);
}

#[test]
fn every_named_anchor_gives_its_offset() {
    let anchors = vec![
        (Anchor::Center, Vec2::new(0.0, 0.0)),
        (Anchor::BottomLeft, Vec2::new(-0.5, -0.5)),
        (Anchor::BottomCenter, Vec2::new(0.0, -0.5)),
        (Anchor::BottomRight, Vec2::new(0.5, -0.5)),
        (Anchor::CenterLeft, Vec2::new(-0.5, 0.0)),
        (Anchor::CenterRight, Vec2::new(0.5, 0.0)),
        (Anchor::TopLeft, Vec2::new(-0.5, 0.5)),
        (Anchor::TopCenter, Vec2::new(0.0, 0.5)),
        (Anchor::TopRight, Vec2::new(0.5, 0.5)),
    ];
    let assets = no_atlases();
    for (anchor, offset) in anchors {
        let mut row = sprite_row(0, true);
        row.sprite.anchor = anchor;
        let extracted = extract(&assets, vec![row], Vec::new());
        assert_eq!(extracted[0].anchor, offset);
    }
}
