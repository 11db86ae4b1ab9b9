use bevy::asset::Handle;
use bevy::ecs::entity::Entity;
use bevy::ecs::query::QueryEntityError;
use bevy::ecs::world::World;
use bevy::math::UVec2;
use bevy::transform::components::GlobalTransform;
use bevy_ecs_tilemap::map::TilemapGridSize;
use bevy_ecs_tilemap::map::TilemapSize;
use bevy_ecs_tilemap::map::TilemapTexture;
use bevy_ecs_tilemap::map::TilemapTileSize;
use bevy_ecs_tilemap::map::TilemapType;
use bevy_ecs_tilemap::tiles::TileColor;
use bevy_ecs_tilemap::tiles::TileFlip;
use bevy_ecs_tilemap::tiles::TilePos;
use bevy_ecs_tilemap::tiles::TileStorage;
use tilemap_editor::coord_utils::IntPos;
use tilemap_editor::error::EditorError;
use tilemap_editor::state::editing_tilemap::StateData;
use tilemap_editor::state::editing_tilemap::UiInput;
use tilemap_editor::state::editing_tilemap::ViewportInput;
use tilemap_editor::state::picking_tilemap::PickedTilemap;
use tilemap_editor::state::EditorState;
use tilemap_editor::state::FrameInput;
use tilemap_editor::state::Message;
use tilemap_editor::state::State;
use tilemap_editor::tools::PointerInput;
use tilemap_editor::tools::Tool;

fn spawn_tilemap(world: &mut World, texture: TilemapTexture) -> Entity {
    let size = TilemapSize { x: 4, y: 3 };
    world
        .spawn((
            texture,
            TilemapGridSize { x: 16.0, y: 16.0 },
            TilemapTileSize { x: 16.0, y: 16.0 },
            size,
            GlobalTransform::default(),
            TileStorage::empty(size),
            TilemapType::Square,
        ))
        .id()
}

fn single() -> TilemapTexture {
    TilemapTexture::Single(Handle::default())
}

fn idle() -> UiInput {
    UiInput {
        atlas_size: Some(UVec2::new(64, 64)),
        tile_size: UVec2::new(16, 16),
        exit_clicked: false,
        selected_tool: None,
        palette_pointer: None,
        palette_clicked: false,
        flip: TileFlip { x: false, y: false, d: false },
        color: TileColor::default(),
        rotate_plus_clicked: false,
        rotate_minus_clicked: false,
        key_h: false,
        key_v: false,
        key_d: false,
        key_r: false,
        shift: false,
    }
}

fn flags(state: &StateData) -> (bool, bool, bool) {
    (state.palette_state.flip.x, state.palette_state.flip.y, state.palette_state.flip.d)
}

#[test]
fn editing_starts_with_the_painter_for_a_single_image() {
    let mut world = World::new();
    let tilemap = spawn_tilemap(&mut world, single());
    let state = StateData::new(tilemap, &mut world).unwrap();
    assert_eq!(state.tilemap_entity, tilemap);
    assert!(state.tilemap_texture == single());
    assert!(matches!(state.current_tool, Tool::Painter(_)));
    assert_eq!(state.palette_state.texture.0, 0);
    assert_eq!(flags(&state), (false, false, false));
    assert!(state.cleanup() == single());
}

#[test]
fn editing_is_refused_for_other_tilesets_and_for_other_entities() {
    let mut world = World::new();
    let vector = spawn_tilemap(&mut world, TilemapTexture::Vector(vec![Handle::default()]));
    let container = spawn_tilemap(&mut world, TilemapTexture::TextureContainer(Handle::default()));
    let stray = world.spawn_empty().id();
    assert!(matches!(
        StateData::new(vector, &mut world),
        Err(EditorError::UnsupportedTilemapTextureType("Vector"))
    ));
    assert!(matches!(
        StateData::new(container, &mut world),
        Err(EditorError::UnsupportedTilemapTextureType("TextureContainer"))
    ));
    match StateData::new(stray, &mut world) {
        Err(EditorError::BadTilemapEntity { tilemap_entity, query_error }) => {
            assert_eq!(tilemap_entity, stray);
            assert_eq!(query_error, QueryEntityError::QueryDoesNotMatch(stray));
        }
        _ => panic!("an entity that is no tilemap was accepted"),
    }
}

#[test]
fn tools_are_offered_in_a_fixed_order() {
    let tools = StateData::tools();
    assert!(matches!(tools[0], Tool::Painter(_)));
    assert!(matches!(tools[1], Tool::Eraser(_)));
    assert!(matches!(tools[2], Tool::Picker(_)));
    assert!(matches!(tools[3], Tool::WhoIs(_)));
}

#[test]
fn panel_follows_the_controls() {
    let mut world = World::new();
    let tilemap = spawn_tilemap(&mut world, single());
    let mut state = StateData::new(tilemap, &mut world).unwrap();

    let outcome = state.ui(&mut world, UiInput { selected_tool: Some(2), ..idle() });
    assert!(matches!(outcome.message, Message::Stay));
    assert!(matches!(state.current_tool, Tool::Picker(_)));
    state.ui(&mut world, UiInput { selected_tool: Some(4), ..idle() });
    assert!(matches!(state.current_tool, Tool::Picker(_)));

    let outcome = state.ui(
        &mut world,
        UiInput {
            palette_pointer: Some(IntPos { x: 33, y: 17 }),
            palette_clicked: true,
            ..idle()
        },
    );
    assert_eq!(outcome.hovered_tile, Some(6));
    assert_eq!(state.palette_state.texture.0, 6);

    let boxes = TileFlip { x: true, y: false, d: false };
    state.ui(&mut world, UiInput { flip: boxes, ..idle() });
    assert_eq!(flags(&state), (true, false, false));
    state.ui(&mut world, UiInput { flip: boxes, key_h: true, key_v: true, ..idle() });
    assert_eq!(flags(&state), (false, true, false));
    state.ui(&mut world, UiInput { flip: boxes, key_d: true, ..idle() });
    assert_eq!(flags(&state), (true, false, true));
    state.ui(&mut world, UiInput { rotate_plus_clicked: true, ..idle() });
    assert_eq!(flags(&state), (false, true, true));
    state.ui(&mut world, UiInput { rotate_minus_clicked: true, ..idle() });
    assert_eq!(flags(&state), (true, false, true));
    state.ui(&mut world, UiInput { key_r: true, shift: true, ..idle() });
    assert_eq!(flags(&state), (false, true, true));
    state.ui(&mut world, UiInput { key_r: true, ..idle() });
    assert_eq!(flags(&state), (true, false, true));
    state.ui(
        &mut world,
        UiInput { rotate_plus_clicked: true, rotate_minus_clicked: true, ..idle() },
    );
    assert_eq!(flags(&state), (false, false, false));
    assert_eq!(state.palette_state.texture.0, 6);
}

#[test]
fn panel_ends_the_editing() {
    let mut world = World::new();
    let tilemap = spawn_tilemap(&mut world, single());
    let mut state = StateData::new(tilemap, &mut world).unwrap();
    let outcome =
        state.ui(&mut world, UiInput { exit_clicked: true, selected_tool: Some(1), ..idle() });
    assert!(matches!(outcome.message, Message::ExitTilemapEditing));
    assert!(matches!(state.current_tool, Tool::Painter(_)));
    let outcome = state.ui(&mut world, UiInput { atlas_size: None, ..idle() });
    match outcome.message {
        Message::ShowErrorAndExitEditing(EditorError::InvalidImageHandle { texture }) => {
            assert!(texture == single())
        }
        _ => panic!("a tileset without its image was accepted"),
    }
    world.despawn(tilemap);
    let outcome = state.ui(&mut world, idle());
    assert!(matches!(
        outcome.message,
        Message::ShowErrorAndExitEditing(EditorError::BadTilemapEntity { .. })
    ));
}

fn pointer(primary_down: bool, primary_clicked: bool) -> PointerInput {
    PointerInput { primary_down, primary_clicked }
}

fn no_camera() -> ViewportInput {
    ViewportInput { camera_active: false, hovered_tile: None, pointer: pointer(false, false) }
}

#[test]
fn editor_moves_between_choosing_and_editing() {
    let mut world = World::new();
    let tilemap = spawn_tilemap(&mut world, single());
    let vector = spawn_tilemap(&mut world, TilemapTexture::Vector(Vec::new()));
    let mut editor = EditorState::default();
    assert!(matches!(editor.state, State::PickingTilemap(_)));
    assert!(matches!(editor.pending, Message::Stay));

    let frame = editor.ui(&mut world, FrameInput { editing: idle(), picked: None });
    assert!(frame.hovered_tile.is_none());
    assert!(matches!(editor.pending, Message::Stay));
    let frame = editor.viewport_ui(&mut world, None, no_camera());
    assert!(matches!(editor.state, State::PickingTilemap(_)));
    assert!(frame.panel.error.is_none() && frame.panel.closed.is_none());
    assert!(frame.handled.error.is_none() && frame.handled.closed.is_none());

    editor.ui(
        &mut world,
        FrameInput { editing: idle(), picked: Some(PickedTilemap { entity: vector, square: true }) },
    );
    assert!(matches!(editor.pending, Message::EditTilemap(chosen) if chosen == vector));
    let frame = editor.viewport_ui(&mut world, None, no_camera());
    assert!(matches!(editor.state, State::PickingTilemap(_)));
    assert!(matches!(editor.pending, Message::Stay));
    assert!(matches!(
        frame.panel.error,
        Some(EditorError::UnsupportedTilemapTextureType("Vector"))
    ));
    assert!(frame.handled.error.is_none());

    editor.ui(
        &mut world,
        FrameInput {
            editing: idle(),
            picked: Some(PickedTilemap { entity: tilemap, square: true }),
        },
    );
    assert!(matches!(editor.state, State::PickingTilemap(_)));
    let frame = editor.viewport_ui(&mut world, None, no_camera());
    assert!(frame.panel.error.is_none() && frame.panel.closed.is_none());
    match &editor.state {
        State::Editing(data) => assert_eq!(data.tilemap_entity, tilemap),
        _ => panic!("the editor did not start editing"),
    }

    editor.ui(
        &mut world,
        FrameInput { editing: UiInput { exit_clicked: true, ..idle() }, picked: None },
    );
    assert!(matches!(editor.state, State::Editing(_)));
    assert!(matches!(editor.pending, Message::ExitTilemapEditing));
    let frame = editor.viewport_ui(&mut world, None, no_camera());
    assert!(matches!(editor.state, State::PickingTilemap(_)));
    assert!(matches!(editor.pending, Message::Stay));
    assert!(frame.panel.closed == Some(single()));
    assert!(frame.panel.error.is_none());
    assert!(frame.handled.closed.is_none());
}

#[test]
fn a_message_of_the_panel_waits_until_the_viewport_has_run() {
    let mut world = World::new();
    let tilemap = spawn_tilemap(&mut world, single());
    let mut editor = EditorState::default();
    editor.handle_message(Message::EditTilemap(tilemap), &mut world);
    let pos = TilePos { x: 2, y: 1 };

    editor.ui(
        &mut world,
        FrameInput { editing: UiInput { exit_clicked: true, ..idle() }, picked: None },
    );
    assert!(matches!(editor.state, State::Editing(_)));
    let frame = editor.viewport_ui(
        &mut world,
        None,
        ViewportInput { camera_active: true, hovered_tile: Some(pos), pointer: pointer(true, false) },
    );
    assert!(world.get::<TileStorage>(tilemap).unwrap().get(&pos).is_some());
    assert!(frame.handled.error.is_none() && frame.handled.closed.is_none());
    assert!(frame.panel.closed == Some(single()));
    assert!(matches!(editor.state, State::PickingTilemap(_)));

    let other = TilePos { x: 0, y: 0 };
    editor.viewport_ui(
        &mut world,
        None,
        ViewportInput { camera_active: true, hovered_tile: Some(other), pointer: pointer(true, false) },
    );
    assert_eq!(world.get::<TileStorage>(tilemap).unwrap().get(&other), None);
}

#[test]
fn the_first_message_of_the_panel_is_the_one_that_waits() {
    let mut world = World::new();
    let tilemap = spawn_tilemap(&mut world, single());
    let mut editor = EditorState::default();
    editor.handle_message(Message::EditTilemap(tilemap), &mut world);
    editor.ui(
        &mut world,
        FrameInput { editing: UiInput { atlas_size: None, ..idle() }, picked: None },
    );
    editor.ui(
        &mut world,
        FrameInput { editing: UiInput { exit_clicked: true, ..idle() }, picked: None },
    );
    assert!(matches!(
        editor.pending,
        Message::ShowErrorAndExitEditing(EditorError::InvalidImageHandle { .. })
    ));
    let frame = editor.viewport_ui(&mut world, None, no_camera());
    assert!(matches!(frame.panel.error, Some(EditorError::InvalidImageHandle { .. })));
    assert!(frame.panel.closed == Some(single()));
    assert!(matches!(editor.state, State::PickingTilemap(_)));
}

#[test]
fn messages_are_acted_on() {
    let mut world = World::new();
    let tilemap = spawn_tilemap(&mut world, single());
    let mut editor = EditorState::default();
    let outcome = editor.handle_message(Message::Stay, &mut world);
    assert!(outcome.closed.is_none() && outcome.error.is_none());
    assert!(matches!(editor.state, State::PickingTilemap(_)));
    let outcome = editor.handle_message(Message::EditTilemap(tilemap), &mut world);
    assert!(outcome.closed.is_none() && outcome.error.is_none());
    assert!(matches!(editor.state, State::Editing(_)));
    let outcome = editor.handle_message(
        Message::ShowErrorAndExitEditing(EditorError::UnsupportedTilemapTextureType("any")),
        &mut world,
    );
    assert!(matches!(editor.state, State::PickingTilemap(_)));
    assert!(outcome.closed == Some(single()));
    assert!(matches!(outcome.error, Some(EditorError::UnsupportedTilemapTextureType("any"))));
    let outcome = editor.handle_message(Message::ExitTilemapEditing, &mut world);
    assert!(outcome.closed.is_none() && outcome.error.is_none());
    let former = editor.state_switch(State::Editing(StateData::new(tilemap, &mut world).unwrap()));
    assert!(matches!(former, State::PickingTilemap(_)));
    assert!(matches!(editor.state, State::Editing(_)));
}

#[test]
fn viewport_lets_the_active_tool_act() {
    let mut world = World::new();
    let tilemap = spawn_tilemap(&mut world, single());
    let mut editor = EditorState::default();
    let pos = TilePos { x: 1, y: 0 };
    let hover = |primary_down: bool| ViewportInput {
        camera_active: true,
        hovered_tile: Some(pos),
        pointer: pointer(primary_down, false),
    };
    let frame = editor.viewport_ui(&mut world, None, hover(true));
    assert!(frame.report.is_none() && frame.handled.error.is_none());
    editor.handle_message(Message::EditTilemap(tilemap), &mut world);

    let frame = editor.viewport_ui(
        &mut world,
        None,
        ViewportInput { camera_active: false, hovered_tile: Some(pos), pointer: pointer(true, false) },
    );
    assert!(frame.handled.error.is_none());
    assert_eq!(world.get::<TileStorage>(tilemap).unwrap().get(&pos), None);
    editor.viewport_ui(
        &mut world,
        None,
        ViewportInput { camera_active: true, hovered_tile: None, pointer: pointer(true, false) },
    );
    assert_eq!(world.get::<TileStorage>(tilemap).unwrap().get(&pos), None);

    editor.viewport_ui(&mut world, None, hover(true));
    let tile = world.get::<TileStorage>(tilemap).unwrap().get(&pos).unwrap();
    editor.ui(
        &mut world,
        FrameInput { editing: UiInput { selected_tool: Some(3), ..idle() }, picked: None },
    );
    let frame = editor.viewport_ui(&mut world, None, hover(false));
    let report = frame.report.unwrap();
    assert_eq!(report.entity, tile);
    assert_eq!(report.transform, "No transform");

    world.despawn(tilemap);
    let frame = editor.viewport_ui(&mut world, None, hover(false));
    assert!(matches!(frame.handled.error, Some(EditorError::BadTilemapEntity { .. })));
    assert!(frame.handled.closed == Some(single()));
    assert!(matches!(editor.state, State::PickingTilemap(_)));
}

#[test]
fn tilemaps_are_listed_under_their_names() {
    let state = tilemap_editor::state::picking_tilemap::StateData::empty();
    assert_eq!(state.name_tilemap(None), "Unnamed tilemap");
    assert_eq!(state.name_tilemap(Some("Overworld")), "Overworld");
    let mut state = tilemap_editor::state::picking_tilemap::StateData::new();
    assert!(matches!(state.viewport_ui(), Message::Stay));
    assert!(matches!(state.ui(None), Message::Stay));
    let entity = Entity::from_raw(3);
    assert!(matches!(
        state.ui(Some(PickedTilemap { entity, square: true })),
        Message::EditTilemap(chosen) if chosen == entity
    ));
    assert!(matches!(
        state.ui(Some(PickedTilemap { entity, square: false })),
        Message::ShowErrorAndExitEditing(EditorError::UnsupportedTilemapType)
    ));
    state.cleanup();
}

#[test]
fn a_tilemap_of_other_than_square_tiles_is_refused() {
    let mut world = World::new();
    let tilemap = spawn_tilemap(&mut world, single());
    let mut editor = EditorState::default();
    editor.ui(
        &mut world,
        FrameInput {
            editing: idle(),
            picked: Some(PickedTilemap { entity: tilemap, square: false }),
        },
    );
    assert!(matches!(editor.state, State::PickingTilemap(_)));
    let frame = editor.viewport_ui(&mut world, None, no_camera());
    assert!(matches!(frame.panel.error, Some(EditorError::UnsupportedTilemapType)));
    assert!(frame.panel.closed.is_none());
    assert!(matches!(editor.state, State::PickingTilemap(_)));
    assert!(matches!(editor.pending, Message::Stay));
}

#[test]
fn the_picker_waits_for_a_click_in_the_viewport() {
    let mut world = World::new();
    let tilemap = spawn_tilemap(&mut world, single());
    let mut editor = EditorState::default();
    editor.handle_message(Message::EditTilemap(tilemap), &mut world);
    let pos = TilePos { x: 1, y: 1 };
    let over = |primary_down: bool, primary_clicked: bool| ViewportInput {
        camera_active: true,
        hovered_tile: Some(pos),
        pointer: pointer(primary_down, primary_clicked),
    };
    let brush_texture = |editor: &EditorState| match &editor.state {
        State::Editing(data) => data.palette_state.texture.0,
        _ => panic!("the editing has ended"),
    };

    editor.ui(
        &mut world,
        FrameInput {
            editing: UiInput {
                palette_pointer: Some(IntPos { x: 33, y: 17 }),
                palette_clicked: true,
                ..idle()
            },
            picked: None,
        },
    );
    assert_eq!(brush_texture(&editor), 6);
    editor.viewport_ui(&mut world, None, over(true, false));
    assert!(world.get::<TileStorage>(tilemap).unwrap().get(&pos).is_some());

    editor.ui(
        &mut world,
        FrameInput {
            editing: UiInput {
                selected_tool: Some(2),
                palette_pointer: Some(IntPos { x: 1, y: 1 }),
                palette_clicked: true,
                ..idle()
            },
            picked: None,
        },
    );
    assert_eq!(brush_texture(&editor), 0);
    editor.viewport_ui(&mut world, None, over(true, false));
    assert_eq!(brush_texture(&editor), 0);
    editor.viewport_ui(&mut world, None, over(false, true));
    assert_eq!(brush_texture(&editor), 6);
}
