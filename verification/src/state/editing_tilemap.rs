//! The state in which a tilemap is being edited: the active tool, the
//! brush, and what one frame of input makes of them.

use crate::coord_utils::IntPos;
use crate::error::EditorError;
use crate::flip_rotation::rotate_minus_90;
use crate::flip_rotation::rotate_plus_90;
use crate::flip_rotation::rotated_minus_90;
use crate::flip_rotation::rotated_plus_90;
use crate::host::entities;
use crate::host::kind_of_texture;
use crate::host::query_failure;
use crate::host::texture_kind;
use crate::host::weak_texture;
use crate::host::tilemap_of;
use crate::host::read_tilemap;
use crate::host::TextureKind;
use crate::host::TileProperties;
use crate::palette::begins_inside;
use crate::palette::can_lay_out;
use crate::palette::tile_under;
use crate::palette::TilePalette;
use crate::state::Message;
use crate::tile_data::TileData;
use crate::tools::acted;
use crate::tools::data_view;
use crate::tools::TileEraser;
use crate::tools::PointerInput;
use crate::tools::TileInfo;
use crate::tools::TilePainter;
use crate::tools::TilePicker;
use crate::tools::TileWhoIs;
use crate::tools::Tool;
use crate::tools::ToolContext;
use crate::host::EntityView;
use bevy::ecs::entity::Entity;
use bevy::ecs::query::QueryEntityError;
use bevy::ecs::world::World;
use bevy::math::UVec2;
use bevy_ecs_tilemap::map::TilemapTexture;
use bevy_ecs_tilemap::tiles::TileColor;
use bevy_ecs_tilemap::tiles::TileFlip;
use bevy_ecs_tilemap::tiles::TilePos;
use bevy_ecs_tilemap::tiles::TileTextureIndex;
use std::collections::HashMap;
use vstd::prelude::*;

verus! {

/// What is kept while a tilemap is being edited.
pub struct StateData {
    /// The tool that acts on the hovered tile.
    pub current_tool: Tool,
    /// The brush.
    pub palette_state: TileProperties,
    /// The tileset of the tilemap: a single image.
    pub tilemap_texture: TilemapTexture,
    /// The tilemap.
    pub tilemap_entity: Entity,
}

/// What the panel reports of one frame: what the user did to each of its
/// controls.
pub struct UiInput {
    /// The size of the tileset's image, if the image is loaded.
    pub atlas_size: Option<UVec2>,
    /// The size of one tile.
    pub tile_size: UVec2,
    /// Whether the exit button was clicked.
    pub exit_clicked: bool,
    /// The tool that was chosen, by its place in `StateData::tools`.
    pub selected_tool: Option<usize>,
    /// Where the pointer is over the palette, in the palette's own pixels.
    pub palette_pointer: Option<IntPos>,
    /// Whether the palette was clicked.
    pub palette_clicked: bool,
    /// The three flip boxes as the user left them.
    pub flip: TileFlip,
    /// The tint as the user left it.
    pub color: TileColor,
    /// Whether the button for a positive quarter turn was clicked.
    pub rotate_plus_clicked: bool,
    /// Whether the button for a negative quarter turn was clicked.
    pub rotate_minus_clicked: bool,
    /// Whether the key for the horizontal flip was pressed.
    pub key_h: bool,
    /// Whether the key for the vertical flip was pressed.
    pub key_v: bool,
    /// Whether the key for the diagonal flip was pressed.
    pub key_d: bool,
    /// Whether the key for a quarter turn was pressed.
    pub key_r: bool,
    /// Whether shift is held, which turns the other way.
    pub shift: bool,
}

/// What one frame of the panel makes of the state.
pub struct UiOutcome {
    /// What the editor is to do next.
    pub message: Message,
    /// The tile of the palette under the pointer, for the caller to mark.
    pub hovered_tile: Option<u32>,
}

/// What one frame of the viewport makes of the state.
pub struct ViewportOutcome {
    /// What the editor is to do next.
    pub message: Message,
    /// What the inspecting tool reports of the hovered tile.
    pub report: Option<TileInfo>,
}

/// What the viewport reports of one frame.
pub struct ViewportInput {
    /// Whether a camera is showing the scene.
    pub camera_active: bool,
    /// The tile under the pointer, if the pointer is over the tilemap.
    pub hovered_tile: Option<TilePos>,
    /// What the primary button of the pointer does.
    pub pointer: PointerInput,
}

/// The answer of the tool that a viewport outcome passes on: the error
/// with which the editing ends, or else the report.
pub open spec fn answer_of(outcome: ViewportOutcome) -> Result<Option<TileInfo>, EditorError> {
    match outcome.message {
        Message::ShowErrorAndExitEditing(error) => Err(error),
        _ => Ok(outcome.report),
    }
}

/// The tool at `index` in the order in which the tools are offered.
pub open spec fn tool_at(index: int) -> Tool {
    if index == 0 {
        Tool::Painter(TilePainter)
    } else if index == 1 {
        Tool::Eraser(TileEraser)
    } else if index == 2 {
        Tool::Picker(TilePicker)
    } else {
        Tool::WhoIs(TileWhoIs)
    }
}

/// The flags after the buttons and keys of one frame: the boxes as the user
/// left them, then a quarter turn for each turn button that was clicked,
/// then the flip keys, then the turn key.
pub open spec fn flip_after(input: UiInput) -> TileFlip {
    let boxes = input.flip;
    let plus = if input.rotate_plus_clicked {
        rotated_plus_90(boxes)
    } else {
        boxes
    };
    let buttons = if input.rotate_minus_clicked {
        rotated_minus_90(plus)
    } else {
        plus
    };
    let keys = TileFlip {
        x: buttons.x != input.key_h,
        y: buttons.y != input.key_v,
        d: buttons.d != input.key_d,
    };
    if !input.key_r {
        keys
    } else if input.shift {
        rotated_plus_90(keys)
    } else {
        rotated_minus_90(keys)
    }
}

/// The texture index after one frame of the palette: the tile that was
/// clicked, else the selection if it begins inside the image, else 0. A
/// palette that cannot be laid out leaves the selection alone.
pub open spec fn texture_after(selected: u32, input: UiInput, atlas_size: UVec2) -> u32 {
    if !can_lay_out(atlas_size, input.tile_size) {
        selected
    } else if input.palette_clicked && input.palette_pointer is Some && tile_under(
        input.palette_pointer->0,
        atlas_size,
        input.tile_size,
    ) is Some {
        tile_under(input.palette_pointer->0, atlas_size, input.tile_size)->0 as u32
    } else if begins_inside(selected, atlas_size, input.tile_size) {
        selected
    } else {
        0
    }
}

/// What starting to edit `tilemap_entity` gives: the editing state, with
/// the painter and a fresh brush, for a tilemap whose tileset is a single
/// image, and the reason for the refusal for anything else.
pub open spec fn opened(
    before: Map<Entity, EntityView>,
    tilemap_entity: Entity,
    state: Result<StateData, EditorError>,
) -> bool {
    if before.contains_key(tilemap_entity) && before[tilemap_entity].tilemap is Some {
        let map = before[tilemap_entity].tilemap->0;
        match texture_kind(map.texture) {
            TextureKind::Single => state matches Ok(made) && made.tilemap_entity == tilemap_entity
                && made.tilemap_texture == map.texture && made.current_tool == tool_at(0)
                && made.palette_state.texture.0 == 0 && made.palette_state.flip == (TileFlip {
                x: false,
                y: false,
                d: false,
            }),
            TextureKind::Vector => state matches Err(
                EditorError::UnsupportedTilemapTextureType(name),
            ) && name@ == "Vector"@,
            TextureKind::TextureContainer => state matches Err(
                EditorError::UnsupportedTilemapTextureType(name),
            ) && name@ == "TextureContainer"@,
        }
    } else {
        state matches Err(error) && error == (EditorError::BadTilemapEntity {
            tilemap_entity,
            query_error: if before.contains_key(tilemap_entity) {
                QueryEntityError::QueryDoesNotMatch(tilemap_entity)
            } else {
                QueryEntityError::NoSuchEntity(tilemap_entity)
            },
        })
    }
}

/// Whether a frame of the panel gets as far as its controls: the tilemap is
/// still there, the tileset's image is loaded and the exit button was not
/// clicked.
pub open spec fn reaches_controls(state: StateData, world: Map<Entity, EntityView>, input: UiInput) -> bool {
    &&& world.contains_key(state.tilemap_entity)
    &&& world[state.tilemap_entity].tilemap is Some
    &&& input.atlas_size is Some
    &&& !input.exit_clicked
}

/// What a frame of the panel asks of the editor: to end the editing with an
/// error for a tilemap that is gone or a tileset whose image is not loaded,
/// to end it without one when the exit button was clicked, and else nothing.
pub open spec fn ui_message(state: StateData, world: Map<Entity, EntityView>, input: UiInput) -> Message {
    if !(world.contains_key(state.tilemap_entity) && world[state.tilemap_entity].tilemap is Some) {
        Message::ShowErrorAndExitEditing(
            EditorError::BadTilemapEntity {
                tilemap_entity: state.tilemap_entity,
                query_error: if world.contains_key(state.tilemap_entity) {
                    QueryEntityError::QueryDoesNotMatch(state.tilemap_entity)
                } else {
                    QueryEntityError::NoSuchEntity(state.tilemap_entity)
                },
            },
        )
    } else if input.atlas_size is None {
        Message::ShowErrorAndExitEditing(
            EditorError::InvalidImageHandle { texture: state.tilemap_texture },
        )
    } else if input.exit_clicked {
        Message::ExitTilemapEditing
    } else {
        Message::Stay
    }
}

/// What a frame of the panel makes of the state: where it gets as far as
/// its controls, the tool, the texture, the flags and the tint follow what
/// the user did.
pub open spec fn after_ui(state: StateData, world: Map<Entity, EntityView>, input: UiInput) -> StateData {
    if reaches_controls(state, world, input) {
        StateData {
            current_tool: match input.selected_tool {
                Some(index) => if index < 4 {
                    tool_at(index as int)
                } else {
                    state.current_tool
                },
                None => state.current_tool,
            },
            palette_state: TileProperties {
                color: input.color,
                flip: flip_after(input),
                texture: TileTextureIndex(
                    texture_after(state.palette_state.texture.0, input, input.atlas_size->0),
                ),
            },
            ..state
        }
    } else {
        state
    }
}

/// The tile of the palette that a frame of the panel finds under the
/// pointer.
pub open spec fn hovered_in_palette(state: StateData, world: Map<Entity, EntityView>, input: UiInput) -> Option<
    u32,
> {
    if reaches_controls(state, world, input) && can_lay_out(input.atlas_size->0, input.tile_size)
        && input.palette_pointer is Some && tile_under(
        input.palette_pointer->0,
        input.atlas_size->0,
        input.tile_size,
    ) is Some {
        Some(tile_under(input.palette_pointer->0, input.atlas_size->0, input.tile_size)->0 as u32)
    } else {
        None
    }
}

impl StateData {
    /// The tools in the order in which they are offered.
    pub fn tools() -> (tools: [Tool; 4])
        ensures
            forall|index: int| 0 <= index < 4 ==> tools[index] == tool_at(index),
    {
        [
            Tool::Painter(TilePainter),
            Tool::Eraser(TileEraser),
            Tool::Picker(TilePicker),
            Tool::WhoIs(TileWhoIs),
        ]
    }

    /// Starts editing `tilemap_entity`: with the painter and a fresh brush,
    /// for a tilemap whose tileset is a single image. Any other tilemap is
    /// refused, and so is an entity that is no tilemap.
    pub fn new(tilemap_entity: Entity, world: &mut World) -> (state: Result<Self, EditorError>)
        ensures
            entities(*final(world)) == entities(*old(world)),
            opened(entities(*old(world)), tilemap_entity, state),
    {
        let texture = match read_tilemap(world, tilemap_entity) {
            Ok(found) => found.0,
            Err(query_error) => {
                return Err(EditorError::BadTilemapEntity { tilemap_entity, query_error });
            },
        };
        match kind_of_texture(&texture) {
            TextureKind::Single => Ok(
                Self {
                    current_tool: Tool::Painter(TilePainter),
                    palette_state: TileProperties::default(),
                    tilemap_texture: texture,
                    tilemap_entity,
                },
            ),
            TextureKind::Vector => Err(EditorError::UnsupportedTilemapTextureType("Vector")),
            TextureKind::TextureContainer => Err(
                EditorError::UnsupportedTilemapTextureType("TextureContainer"),
            ),
        }
    }

    /// Ends the editing of the tilemap. What the state held is handed back
    /// for the caller to release what it holds for the tileset.
    pub fn cleanup(self) -> (texture: TilemapTexture)
        ensures
            texture == self.tilemap_texture,
    {
        self.tilemap_texture
    }

    /// One frame of the panel. A tilemap that is gone, or a tileset whose
    /// image is not loaded, ends the editing with an error; the exit button
    /// ends it without one. Otherwise the tool, the texture, the flags and
    /// the tint follow what the user did.
    pub fn ui(&mut self, world: &mut World, input: UiInput) -> (outcome: UiOutcome)
        ensures
            entities(*final(world)) == entities(*old(world)),
            outcome.message == ui_message(*old(self), entities(*old(world)), input),
            *final(self) == after_ui(*old(self), entities(*old(world)), input),
            outcome.hovered_tile == hovered_in_palette(*old(self), entities(*old(world)), input),
    {
        match read_tilemap(world, self.tilemap_entity) {
            Ok(_) => {},
            Err(query_error) => {
                return UiOutcome {
                    message: Message::ShowErrorAndExitEditing(
                        EditorError::BadTilemapEntity {
                            tilemap_entity: self.tilemap_entity,
                            query_error,
                        },
                    ),
                    hovered_tile: None,
                };
            },
        }
        let atlas_size = match input.atlas_size {
            Some(atlas_size) => atlas_size,
            None => {
                return UiOutcome {
                    message: Message::ShowErrorAndExitEditing(
                        EditorError::InvalidImageHandle {
                            texture: weak_texture(&self.tilemap_texture),
                        },
                    ),
                    hovered_tile: None,
                };
            },
        };
        if input.exit_clicked {
            return UiOutcome { message: Message::ExitTilemapEditing, hovered_tile: None };
        }
        if let Some(index) = input.selected_tool {
            if index < 4 {
                let tools = Self::tools();
                self.current_tool = tools[index];
            }
        }
        let mut selected: u32 = self.palette_state.texture.0;
        let mut hovered_tile: Option<u32> = None;
        if let Some(mut palette) = TilePalette::new(&mut selected, atlas_size, input.tile_size) {
            hovered_tile = palette.ui(input.palette_pointer, input.palette_clicked);
        }
        self.palette_state.texture = TileTextureIndex(selected);
        let mut flip = input.flip;
        if input.rotate_plus_clicked {
            rotate_plus_90(&mut flip);
        }
        if input.rotate_minus_clicked {
            rotate_minus_90(&mut flip);
        }
        self.palette_state.color = input.color;
        if input.key_h {
            flip.x = !flip.x;
        }
        if input.key_v {
            flip.y = !flip.y;
        }
        if input.key_d {
            flip.d = !flip.d;
        }
        if input.key_r {
            if input.shift {
                rotate_plus_90(&mut flip);
            } else {
                rotate_minus_90(&mut flip);
            }
        }
        self.palette_state.flip = flip;
        UiOutcome { message: Message::Stay, hovered_tile }
    }

    /// One frame of the viewport. Without a camera nothing happens. A
    /// tilemap that is gone ends the editing with an error. Otherwise the
    /// active tool acts on the hovered tile, and an error of the tool ends
    /// the editing.
    pub fn viewport_ui(
        &mut self,
        world: &mut World,
        tile_data: Option<&mut HashMap<u32, TileData>>,
        input: ViewportInput,
    ) -> (outcome: ViewportOutcome)
        ensures
            final(self).tilemap_entity == old(self).tilemap_entity,
            final(self).tilemap_texture == old(self).tilemap_texture,
            final(self).current_tool == old(self).current_tool,
            if !input.camera_active {
                &&& outcome.message == Message::Stay
                &&& outcome.report is None
                &&& *final(self) == *old(self)
                &&& entities(*final(world)) == entities(*old(world))
                &&& tile_data matches Some(data) ==> final(data)@ == data@
            } else if tilemap_of(*old(world), old(self).tilemap_entity) is None {
                &&& outcome.message == Message::ShowErrorAndExitEditing(
                    EditorError::BadTilemapEntity {
                        tilemap_entity: old(self).tilemap_entity,
                        query_error: query_failure(*old(world), old(self).tilemap_entity),
                    },
                )
                &&& outcome.report is None
                &&& *final(self) == *old(self)
                &&& entities(*final(world)) == entities(*old(world))
                &&& tile_data matches Some(data) ==> final(data)@ == data@
            } else if input.hovered_tile is None {
                &&& outcome.message == Message::Stay
                &&& outcome.report is None
                &&& *final(self) == *old(self)
                &&& entities(*final(world)) == entities(*old(world))
                &&& tile_data matches Some(data) ==> final(data)@ == data@
            } else {
                &&& acted(
                    old(self).current_tool,
                    *old(world),
                    *final(world),
                    old(self).tilemap_entity,
                    data_view(tile_data),
                    match tile_data {
                        Some(data) => Some(final(data)@),
                        None => None,
                    },
                    old(self).palette_state,
                    final(self).palette_state,
                    input.hovered_tile->0,
                    input.pointer,
                    answer_of(outcome),
                )
                &&& outcome.message is Stay || (outcome.message is ShowErrorAndExitEditing
                    && outcome.report is None)
            },
    {
        if !input.camera_active {
            return ViewportOutcome { message: Message::Stay, report: None };
        }
        match read_tilemap(world, self.tilemap_entity) {
            Ok(_) => {},
            Err(query_error) => {
                return ViewportOutcome {
                    message: Message::ShowErrorAndExitEditing(
                        EditorError::BadTilemapEntity {
                            tilemap_entity: self.tilemap_entity,
                            query_error,
                        },
                    ),
                    report: None,
                };
            },
        }
        let hovered_tile = match input.hovered_tile {
            Some(hovered_tile) => hovered_tile,
            None => {
                return ViewportOutcome { message: Message::Stay, report: None };
            },
        };
        let mut tool = self.current_tool;
        let mut context = ToolContext::new(
            world,
            self.tilemap_entity,
            tile_data,
            &mut self.palette_state,
        );
        let answer = tool.viewport_ui(&mut context, hovered_tile, input.pointer);
        match answer {
            Ok(report) => ViewportOutcome { message: Message::Stay, report },
            Err(error) => ViewportOutcome {
                message: Message::ShowErrorAndExitEditing(error),
                report: None,
            },
        }
    }
}

} // verus!
