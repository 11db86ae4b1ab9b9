use bevy::asset::Handle;
use bevy::ecs::entity::Entity;
use bevy::ecs::query::QueryEntityError;
use bevy::ecs::world::World;
use bevy::transform::components::GlobalTransform;
use bevy_ecs_tilemap::map::TilemapGridSize;
use bevy_ecs_tilemap::map::TilemapId;
use bevy_ecs_tilemap::map::TilemapSize;
use bevy_ecs_tilemap::map::TilemapTexture;
use bevy_ecs_tilemap::map::TilemapTileSize;
use bevy_ecs_tilemap::map::TilemapType;
use bevy_ecs_tilemap::tiles::TileFlip;
use bevy_ecs_tilemap::tiles::TilePos;
use bevy_ecs_tilemap::tiles::TileStorage;
use bevy_ecs_tilemap::tiles::TileTextureIndex;
use tilemap_editor::error::EditorError;
use tilemap_editor::host::TileProperties;
use tilemap_editor::tools::flip_flags_to_rotation;
use tilemap_editor::tools::flip_scale;
use tilemap_editor::tools::PointerInput;
use tilemap_editor::tools::TileEraser;
use tilemap_editor::tools::TilePainter;
use tilemap_editor::tools::TilePicker;
use tilemap_editor::tools::TileWhoIs;
use tilemap_editor::tools::Tool;
use tilemap_editor::tools::ToolContext;

fn world_with_tilemap() -> (World, Entity) {
    let mut world = World::new();
    let size = TilemapSize { x: 4, y: 3 };
    let tilemap = world
        .spawn((
            TilemapTexture::Single(Handle::default()),
            TilemapGridSize { x: 16.0, y: 16.0 },
            TilemapTileSize { x: 16.0, y: 16.0 },
            size,
            GlobalTransform::default(),
            TileStorage::empty(size),
            TilemapType::Square,
        ))
        .id();
    (world, tilemap)
}

fn brush(texture: u32, flip: TileFlip) -> TileProperties {
    TileProperties { texture: TileTextureIndex(texture), flip, ..TileProperties::default() }
}

fn plain(texture: u32) -> TileProperties {
    brush(texture, TileFlip { x: false, y: false, d: false })
}

#[test]
fn default_brush_is_the_first_texture_without_flip() {
    let properties = TileProperties::default();
    assert_eq!(properties.texture.0, 0);
    assert!(!properties.flip.x && !properties.flip.y && !properties.flip.d);
    assert_eq!(properties.color.0, bevy::render::color::Color::WHITE);
}

#[test]
fn painting_creates_a_tile_and_repainting_keeps_it() {
    let (mut world, tilemap) = world_with_tilemap();
    let mut state = plain(0);
    let pos = TilePos { x: 3, y: 2 };
    let mut context = ToolContext::new(&mut world, tilemap, None, &mut state);
    assert_eq!(context.get_tile(pos).unwrap(), None);
    assert!(context.get_tile_properties(pos).unwrap().is_none());
    context.set_tile_properties(pos, brush(7, TileFlip { x: true, y: false, d: false })).unwrap();
    let tile = context.get_tile(pos).unwrap().unwrap();
    let (found, properties) = context.get_tile_properties(pos).unwrap().unwrap();
    assert_eq!(found, tile);
    assert_eq!(properties.texture.0, 7);
    assert!(properties.flip.x && !properties.flip.y && !properties.flip.d);
    context.set_tile_properties(pos, plain(9)).unwrap();
    assert_eq!(context.get_tile(pos).unwrap(), Some(tile));
    let (_, properties) = context.get_tile_properties(pos).unwrap().unwrap();
    assert_eq!(properties.texture.0, 9);
    assert!(!properties.flip.x);
    assert_eq!(context.get_tile(TilePos { x: 2, y: 2 }).unwrap(), None);
    assert_eq!(world.get::<TileStorage>(tilemap).unwrap().get(&pos), Some(tile));
    assert_eq!(world.get::<TilePos>(tile).unwrap().x, 3);
}

#[test]
fn nothing_is_painted_outside_the_storage() {
    let (mut world, tilemap) = world_with_tilemap();
    let mut state = plain(0);
    let before = world.entities().len();
    let mut context = ToolContext::new(&mut world, tilemap, None, &mut state);
    context.set_tile_properties(TilePos { x: 4, y: 0 }, plain(1)).unwrap();
    context.set_tile_properties(TilePos { x: 0, y: 3 }, plain(1)).unwrap();
    assert_eq!(context.get_tile(TilePos { x: 4, y: 0 }).unwrap(), None);
    context.despawn_tile(TilePos { x: 9, y: 9 }).unwrap();
    assert_eq!(world.entities().len(), before);
}

#[test]
fn erasing_despawns_the_tile_and_clears_its_slot() {
    let (mut world, tilemap) = world_with_tilemap();
    let mut state = plain(0);
    let pos = TilePos { x: 1, y: 1 };
    let other = TilePos { x: 2, y: 1 };
    let (tile, kept) = {
        let mut context = ToolContext::new(&mut world, tilemap, None, &mut state);
        context.set_tile_properties(pos, plain(1)).unwrap();
        context.set_tile_properties(other, plain(2)).unwrap();
        let tile = context.get_tile(pos).unwrap().unwrap();
        let kept = context.get_tile(other).unwrap().unwrap();
        context.despawn_tile(pos).unwrap();
        assert_eq!(context.get_tile(pos).unwrap(), None);
        assert_eq!(context.get_tile(other).unwrap(), Some(kept));
        context.despawn_tile(pos).unwrap();
        (tile, kept)
    };
    assert!(world.get_entity(tile).is_none());
    assert!(world.get_entity(kept).is_some());
    assert_eq!(world.get::<TileTextureIndex>(kept).unwrap().0, 2);
}

#[test]
fn missing_tilemap_is_reported() {
    let (mut world, tilemap) = world_with_tilemap();
    let stray = world.spawn_empty().id();
    let mut state = plain(0);
    let pos = TilePos { x: 0, y: 0 };
    {
        let mut context = ToolContext::new(&mut world, stray, None, &mut state);
        match context.get_tile(pos) {
            Err(EditorError::BadTilemapEntity { tilemap_entity, query_error }) => {
                assert_eq!(tilemap_entity, stray);
                assert_eq!(query_error, QueryEntityError::QueryDoesNotMatch(stray));
            }
            _ => panic!("an entity that is no tilemap was accepted"),
        }
        assert!(matches!(
            context.set_tile_properties(pos, plain(1)),
            Err(EditorError::BadTilemapEntity { .. })
        ));
        assert!(matches!(
            context.copy_tile_properties(pos),
            Err(EditorError::BadTilemapEntity { .. })
        ));
    }
    world.despawn(tilemap);
    let mut context = ToolContext::new(&mut world, tilemap, None, &mut state);
    match context.despawn_tile(pos) {
        Err(EditorError::BadTilemapEntity { tilemap_entity, query_error }) => {
            assert_eq!(tilemap_entity, tilemap);
            assert_eq!(query_error, QueryEntityError::NoSuchEntity(tilemap));
        }
        _ => panic!("a tilemap that is gone was accepted"),
    }
}

#[test]
fn tile_without_properties_is_reported() {
    let (mut world, tilemap) = world_with_tilemap();
    let stray = world.spawn_empty().id();
    let pos = TilePos { x: 2, y: 0 };
    world.get_mut::<TileStorage>(tilemap).unwrap().set(&pos, stray);
    let mut state = plain(0);
    let mut context = ToolContext::new(&mut world, tilemap, None, &mut state);
    assert_eq!(context.get_tile(pos).unwrap(), Some(stray));
    match context.get_tile_properties(pos) {
        Err(EditorError::BadTileEntity { tilemap_entity, tile_pos, tile_entity, query_error }) => {
            assert_eq!(tilemap_entity, tilemap);
            assert_eq!(tile_pos, pos);
            assert_eq!(tile_entity, stray);
            assert_eq!(query_error, QueryEntityError::QueryDoesNotMatch(stray));
        }
        _ => panic!("a tile without properties was accepted"),
    }
    assert!(matches!(
        context.set_tile_properties(pos, plain(3)),
        Err(EditorError::BadTileEntity { .. })
    ));
    assert!(matches!(context.copy_tile_properties(pos), Err(EditorError::BadTileEntity { .. })));
}

fn idle() -> PointerInput {
    PointerInput { primary_down: false, primary_clicked: false }
}

fn held() -> PointerInput {
    PointerInput { primary_down: true, primary_clicked: false }
}

fn clicked() -> PointerInput {
    PointerInput { primary_down: false, primary_clicked: true }
}

#[test]
fn tools_act_only_while_the_button_is_held() {
    let (mut world, tilemap) = world_with_tilemap();
    let mut state = brush(6, TileFlip { x: false, y: true, d: false });
    let pos = TilePos { x: 0, y: 1 };
    let mut context = ToolContext::new(&mut world, tilemap, None, &mut state);
    let mut painter = Tool::Painter(TilePainter);
    assert!(painter.viewport_ui(&mut context, pos, idle()).unwrap().is_none());
    assert_eq!(context.get_tile(pos).unwrap(), None);
    assert!(painter.viewport_ui(&mut context, pos, clicked()).unwrap().is_none());
    assert_eq!(context.get_tile(pos).unwrap(), None);
    assert!(painter.viewport_ui(&mut context, pos, held()).unwrap().is_none());
    let tile = context.get_tile(pos).unwrap().unwrap();

    let mut whois = Tool::WhoIs(TileWhoIs);
    let info = whois.viewport_ui(&mut context, pos, idle()).unwrap().unwrap();
    assert_eq!(info.entity, tile);
    assert!(info.flip.y && !info.flip.x && !info.flip.d);
    assert_eq!(info.transform, "Flipped vertically");
    assert!(whois.viewport_ui(&mut context, TilePos { x: 1, y: 1 }, held()).unwrap().is_none());

    let mut eraser = Tool::Eraser(TileEraser);
    eraser.viewport_ui(&mut context, pos, idle()).unwrap();
    assert_eq!(context.get_tile(pos).unwrap(), Some(tile));
    eraser.viewport_ui(&mut context, pos, clicked()).unwrap();
    assert_eq!(context.get_tile(pos).unwrap(), Some(tile));
    eraser.viewport_ui(&mut context, pos, held()).unwrap();
    assert_eq!(context.get_tile(pos).unwrap(), None);
}

#[test]
fn the_picker_acts_on_a_click_and_not_while_the_button_is_held() {
    let (mut world, tilemap) = world_with_tilemap();
    let mut state = brush(6, TileFlip { x: false, y: true, d: false });
    let pos = TilePos { x: 0, y: 1 };
    let mut context = ToolContext::new(&mut world, tilemap, None, &mut state);
    context.set_tile_properties(pos, brush(6, TileFlip { x: false, y: true, d: false })).unwrap();

    *context.brush_state = plain(0);
    let mut picker = Tool::Picker(TilePicker);
    picker.viewport_ui(&mut context, pos, idle()).unwrap();
    assert_eq!(context.brush_state.texture.0, 0);
    picker.viewport_ui(&mut context, pos, held()).unwrap();
    assert_eq!(context.brush_state.texture.0, 0);
    assert!(!context.brush_state.flip.y);
    picker.viewport_ui(&mut context, pos, clicked()).unwrap();
    assert_eq!(context.brush_state.texture.0, 6);
    assert!(context.brush_state.flip.y);
    picker.viewport_ui(&mut context, TilePos { x: 3, y: 0 }, clicked()).unwrap();
    assert_eq!(context.brush_state.texture.0, 6);
    TilePicker.viewport_ui(&mut context, pos, held()).unwrap();
    assert_eq!(context.brush_state.texture.0, 6);
}

#[test]
fn tools_are_offered_under_their_names() {
    assert_eq!(Tool::Painter(TilePainter).name(), "Brush");
    assert_eq!(Tool::Eraser(TileEraser).name(), "Eraser");
    assert_eq!(Tool::Picker(TilePicker).name(), "Picker");
    assert_eq!(Tool::WhoIs(TileWhoIs).name(), "Whois");
    assert_eq!(TilePainter.name(), "Brush");
    assert_eq!(TileEraser.name(), "Eraser");
    assert_eq!(TilePicker.name(), "Picker");
    assert_eq!(TileWhoIs.name(), "Whois");
}

#[test]
fn flags_are_described_in_words() {
    let text = |d: bool, x: bool, y: bool| flip_flags_to_rotation(TileFlip { x, y, d });
    assert_eq!(text(false, false, false), "No transform");
    assert_eq!(text(true, false, false), "Rotated -90°, then flipped horizontally");
    assert_eq!(text(false, true, false), "Flipped horizontally");
    assert_eq!(text(true, true, false), "Rotated -90°");
    assert_eq!(text(false, false, true), "Flipped vertically");
    assert_eq!(text(true, false, true), "Rotated 90°");
    assert_eq!(text(false, true, true), "Rotated 180°");
    assert_eq!(text(true, true, true), "Rotated 90°, then flipped horizontally");
}

#[test]
fn brush_picture_is_mirrored_by_the_flags() {
    let scale = |x: bool, y: bool, d: bool| flip_scale(TileFlip { x, y, d });
    assert_eq!(scale(false, false, false), (1, 1));
    assert_eq!(scale(true, false, false), (-1, 1));
    assert_eq!(scale(false, true, false), (1, -1));
    assert_eq!(scale(false, false, true), (-1, 1));
    assert_eq!(scale(true, false, true), (1, 1));
    assert_eq!(scale(true, true, true), (1, -1));
}

#[test]
fn a_tilemap_that_names_itself_is_erased_and_then_missed() {
    let (mut world, tilemap) = world_with_tilemap();
    let pos = TilePos { x: 0, y: 0 };
    world.get_mut::<TileStorage>(tilemap).unwrap().set(&pos, tilemap);
    let mut state = plain(0);
    let mut context = ToolContext::new(&mut world, tilemap, None, &mut state);
    match context.despawn_tile(pos) {
        Err(EditorError::BadTilemapEntity { tilemap_entity, query_error }) => {
            assert_eq!(tilemap_entity, tilemap);
            assert_eq!(query_error, QueryEntityError::NoSuchEntity(tilemap));
        }
        _ => panic!("the tilemap outlived its own removal"),
    }
    assert!(world.get_entity(tilemap).is_none());
}

#[test]
fn a_slot_that_holds_a_dead_tile_is_cleared_by_erasing() {
    let (mut world, tilemap) = world_with_tilemap();
    let pos = TilePos { x: 1, y: 0 };
    let mut state = plain(0);
    let tile = {
        let mut context = ToolContext::new(&mut world, tilemap, None, &mut state);
        context.set_tile_properties(pos, plain(1)).unwrap();
        context.get_tile(pos).unwrap().unwrap()
    };
    world.despawn(tile);
    let mut context = ToolContext::new(&mut world, tilemap, None, &mut state);
    assert_eq!(context.get_tile(pos).unwrap(), Some(tile));
    match context.get_tile_properties(pos) {
        Err(EditorError::BadTileEntity { tile_entity, query_error, .. }) => {
            assert_eq!(tile_entity, tile);
            assert_eq!(query_error, QueryEntityError::NoSuchEntity(tile));
        }
        _ => panic!("a tile that is gone was read"),
    }
    context.despawn_tile(pos).unwrap();
    assert_eq!(context.get_tile(pos).unwrap(), None);
}

#[test]
fn a_storage_that_declares_more_than_it_holds_is_not_overrun() {
    let (mut world, tilemap) = world_with_tilemap();
    world.get_mut::<TileStorage>(tilemap).unwrap().size = TilemapSize { x: 100, y: 100 };
    let before = world.entities().len();
    let mut state = plain(0);
    let mut context = ToolContext::new(&mut world, tilemap, None, &mut state);
    let beyond = TilePos { x: 50, y: 50 };
    assert_eq!(context.get_tile(beyond).unwrap(), None);
    context.set_tile_properties(beyond, plain(2)).unwrap();
    context.despawn_tile(beyond).unwrap();
    assert_eq!(context.get_tile(beyond).unwrap(), None);
    let within = TilePos { x: 11, y: 0 };
    context.set_tile_properties(within, plain(2)).unwrap();
    assert!(context.get_tile(within).unwrap().is_some());
    assert_eq!(world.entities().len(), before + 1);
}

#[test]
fn entities_that_were_reserved_do_not_disturb_painting() {
    let (mut world, tilemap) = world_with_tilemap();
    let reserved = world.entities().reserve_entity();
    let pos = TilePos { x: 2, y: 2 };
    let mut state = plain(0);
    let tile = {
        let mut context = ToolContext::new(&mut world, tilemap, None, &mut state);
        context.set_tile_properties(pos, plain(3)).unwrap();
        let tile = context.get_tile(pos).unwrap().unwrap();
        assert_eq!(context.get_tile_properties(pos).unwrap().unwrap().1.texture.0, 3);
        tile
    };
    assert!(tile != reserved);
    assert!(world.get_entity(reserved).is_some());
    assert!(world.get::<TileTextureIndex>(reserved).is_none());
}

#[test]
fn a_fresh_tile_knows_its_place_and_its_tilemap() {
    let (mut world, tilemap) = world_with_tilemap();
    let mut state = plain(0);
    let pos = TilePos { x: 2, y: 1 };
    let mut context = ToolContext::new(&mut world, tilemap, None, &mut state);
    context.set_tile_properties(pos, plain(5)).unwrap();
    let tile = context.get_tile(pos).unwrap().unwrap();
    assert_eq!(*world.get::<TilePos>(tile).unwrap(), pos);
    assert_eq!(world.get::<TilemapId>(tile).unwrap().0, tilemap);
    assert_eq!(world.get::<TileTextureIndex>(tile).unwrap().0, 5);
}
