//! The editor's two modes, choosing a tilemap and editing one, and the
//! messages that switch between them.

use crate::error::EditorError;
use crate::host::entities;
use crate::host::EntityView;
use crate::state::editing_tilemap::after_ui;
use crate::state::editing_tilemap::hovered_in_palette;
use crate::state::editing_tilemap::opened;
use crate::state::editing_tilemap::ui_message;
use crate::tools::acted;
use crate::tools::data_view;
use crate::tools::TileInfo;
use crate::host::query_failure;
use crate::host::tilemap_of;
use crate::state::editing_tilemap::UiInput;
use crate::state::editing_tilemap::ViewportInput;
use crate::state::editing_tilemap::ViewportOutcome;
use crate::state::picking_tilemap::chosen;
use crate::state::picking_tilemap::PickedTilemap;
use crate::tile_data::TileData;
use bevy::ecs::world::World;
use bevy_ecs_tilemap::map::TilemapTexture;
use std::collections::HashMap;
use bevy::ecs::entity::Entity;
use vstd::prelude::*;

pub mod editing_tilemap;
pub mod picking_tilemap;

verus! {

/// What a frame asks of the editor.
pub enum Message {
    /// Stay in the mode.
    Stay,
    /// Stop editing and go back to choosing a tilemap.
    ExitTilemapEditing,
    /// Start editing the tilemap.
    EditTilemap(Entity),
    /// Show the error, stop editing and go back to choosing a tilemap.
    ShowErrorAndExitEditing(EditorError),
}

/// The mode of the editor, with what each mode keeps.
pub enum State {
    Editing(editing_tilemap::StateData),
    PickingTilemap(picking_tilemap::StateData),
}

/// The editor: its mode, and the message of the panel's last frame, which
/// waits until the viewport's frame has run.
pub struct EditorState {
    pub state: State,
    pub pending: Message,
}

/// What handling a message has left for the caller to do.
pub struct Handled {
    /// The tileset of the editing that has ended, for the caller to release
    /// what it holds for it.
    pub closed: Option<TilemapTexture>,
    /// The error to show.
    pub error: Option<EditorError>,
}

/// What the panel reports of one frame, for either mode.
pub struct FrameInput {
    /// What the user did to the controls of the editing panel.
    pub editing: UiInput,
    /// The tilemap that the user chose from the list.
    pub picked: Option<PickedTilemap>,
}

/// What one frame of the panel has left for the caller to do.
pub struct PanelFrame {
    /// The tile of the palette under the pointer, for the caller to mark.
    pub hovered_tile: Option<u32>,
}

/// What one frame of the viewport has left for the caller to do.
pub struct ViewportFrame {
    /// What acting on the message of the viewport's own frame has left.
    pub handled: Handled,
    /// What acting on the message that the panel had left has left.
    pub panel: Handled,
    /// What the inspecting tool reports of the hovered tile.
    pub report: Option<TileInfo>,
}

/// The tileset that is being edited, if one is.
pub open spec fn edited_texture(state: State) -> Option<TilemapTexture> {
    match state {
        State::Editing(data) => Some(data.tilemap_texture),
        State::PickingTilemap(_) => None,
    }
}

/// What a message makes of the editor: nothing for `Stay`; choosing for
/// the two messages that end the editing, with the error of the second;
/// and for `EditTilemap` editing, if the tilemap can be edited, or else the
/// same mode as before and the reason for the refusal. Whenever an editing
/// ends, its tileset is handed back.
pub open spec fn handled(
    before: State,
    after: State,
    world: Map<Entity, EntityView>,
    message: Message,
    outcome: Handled,
) -> bool {
    match message {
        Message::Stay => after == before && outcome.closed is None && outcome.error is None,
        Message::ExitTilemapEditing => after is PickingTilemap && outcome.closed == edited_texture(
            before,
        ) && outcome.error is None,
        Message::ShowErrorAndExitEditing(error) => after is PickingTilemap && outcome.closed
            == edited_texture(before) && outcome.error == Some(error),
        Message::EditTilemap(tilemap) => match outcome.error {
            None => after matches State::Editing(made) && opened(world, tilemap, Ok(made))
                && outcome.closed == edited_texture(before),
            Some(error) => after == before && outcome.closed is None && opened(
                world,
                tilemap,
                Err(error),
            ),
        },
    }
}

impl EditorState {
    /// Puts the editor into `state` and hands back the state that it was in.
    pub fn state_switch(&mut self, state: State) -> (former: State)
        ensures
            former == old(self).state,
            final(self).state == state,
            final(self).pending == old(self).pending,
    {
        let mut state = state;
        core::mem::swap(&mut self.state, &mut state);
        state
    }

    /// Acts on a message.
    pub fn handle_message(&mut self, msg: Message, world: &mut World) -> (outcome: Handled)
        ensures
            entities(*final(world)) == entities(*old(world)),
            msg !is EditTilemap ==> *final(world) == *old(world),
            handled(old(self).state, final(self).state, entities(*old(world)), msg, outcome),
            final(self).pending == old(self).pending,
    {
        match msg {
            Message::Stay => Handled { closed: None, error: None },
            Message::ExitTilemapEditing => {
                let former = self.state_switch(State::PickingTilemap(picking_tilemap::StateData::new()));
                Handled { closed: Self::close(former), error: None }
            },
            Message::EditTilemap(tilemap) => {
                match editing_tilemap::StateData::new(tilemap, world) {
                    Ok(made) => {
                        let former = self.state_switch(State::Editing(made));
                        Handled { closed: Self::close(former), error: None }
                    },
                    Err(error) => Handled { closed: None, error: Some(error) },
                }
            },
            Message::ShowErrorAndExitEditing(error) => {
                let former = self.state_switch(State::PickingTilemap(picking_tilemap::StateData::new()));
                Handled { closed: Self::close(former), error: Some(error) }
            },
        }
    }

    /// Ends a state, and hands back the tileset of an editing.
    fn close(former: State) -> (closed: Option<TilemapTexture>)
        ensures
            closed == edited_texture(former),
    {
        match former {
            State::Editing(data) => Some(data.cleanup()),
            State::PickingTilemap(data) => {
                data.cleanup();
                None
            },
        }
    }
}

/// The state of the editor after the mode's own frame of the panel, before
/// the message of that frame is acted on.
pub open spec fn after_panel(before: State, world: Map<Entity, EntityView>, input: FrameInput) -> State {
    match before {
        State::Editing(data) => State::Editing(after_ui(data, world, input.editing)),
        State::PickingTilemap(_) => before,
    }
}

/// The message of the mode's own frame of the panel.
pub open spec fn panel_message(before: State, world: Map<Entity, EntityView>, input: FrameInput) -> Message {
    match before {
        State::Editing(data) => ui_message(data, world, input.editing),
        State::PickingTilemap(_) => chosen(input.picked),
    }
}

/// The message that waits after a frame of the panel: the one that waited
/// already, or else the frame's own.
pub open spec fn kept_message(waiting: Message, own: Message) -> Message {
    if waiting is Stay {
        own
    } else {
        waiting
    }
}

/// The answer of the tool that a frame of the viewport passes on: the error
/// with which the editing ended, or else the report.
pub open spec fn frame_answer(handled: Handled, report: Option<TileInfo>) -> Result<
    Option<TileInfo>,
    EditorError,
> {
    match handled.error {
        Some(error) => Err(error),
        None => Ok(report),
    }
}

/// What the viewport's own frame, and acting on that frame's message, make
/// of the editor. While a tilemap is being chosen nothing happens. While one
/// is being edited, the active tool acts on the hovered tile, if a camera
/// shows the scene; an error ends the editing.
pub open spec fn viewport_outcome(
    before: State,
    after: State,
    world_before: World,
    world_after: World,
    data_before: Option<Map<u32, TileData>>,
    data_after: Option<Map<u32, TileData>>,
    input: ViewportInput,
    handled: Handled,
    report: Option<TileInfo>,
) -> bool {
    match before {
        State::PickingTilemap(_) => {
            &&& after == before
            &&& entities(world_after) == entities(world_before)
            &&& data_after == data_before
            &&& report is None
            &&& handled.error is None
            &&& handled.closed is None
        },
        State::Editing(editing) => {
            &&& match handled.error {
                Some(error) => after is PickingTilemap && handled.closed == Some(
                    editing.tilemap_texture,
                ) && report is None,
                None => after matches State::Editing(still) && still.tilemap_entity
                    == editing.tilemap_entity && still.tilemap_texture == editing.tilemap_texture
                    && still.current_tool == editing.current_tool && handled.closed is None,
            }
            &&& if !input.camera_active {
                &&& after == before
                &&& handled.error is None
                &&& report is None
                &&& entities(world_after) == entities(world_before)
                &&& data_after == data_before
            } else if tilemap_of(world_before, editing.tilemap_entity) is None {
                &&& handled.error == Some(
                    EditorError::BadTilemapEntity {
                        tilemap_entity: editing.tilemap_entity,
                        query_error: query_failure(world_before, editing.tilemap_entity),
                    },
                )
                &&& entities(world_after) == entities(world_before)
                &&& data_after == data_before
            } else if input.hovered_tile is None {
                &&& after == before
                &&& handled.error is None
                &&& report is None
                &&& entities(world_after) == entities(world_before)
                &&& data_after == data_before
            } else {
                acted(
                    editing.current_tool,
                    world_before,
                    world_after,
                    editing.tilemap_entity,
                    data_before,
                    data_after,
                    editing.palette_state,
                    match after {
                        State::Editing(still) => still.palette_state,
                        State::PickingTilemap(_) => editing.palette_state,
                    },
                    input.hovered_tile->0,
                    input.pointer,
                    frame_answer(handled, report),
                )
            }
        },
    }
}

impl EditorState {
    /// One frame of the panel: the mode's own frame. The message of the
    /// frame is kept, and the mode stays as it is, until the viewport's
    /// frame has run.
    pub fn ui(&mut self, world: &mut World, input: FrameInput) -> (frame: PanelFrame)
        ensures
            entities(*final(world)) == entities(*old(world)),
            final(self).state == after_panel(old(self).state, entities(*old(world)), input),
            final(self).pending == kept_message(
                old(self).pending,
                panel_message(old(self).state, entities(*old(world)), input),
            ),
            frame.hovered_tile == match old(self).state {
                State::Editing(data) => hovered_in_palette(
                    data,
                    entities(*old(world)),
                    input.editing,
                ),
                State::PickingTilemap(_) => None,
            },
    {
        let (message, hovered_tile) = match &mut self.state {
            State::Editing(data) => {
                let outcome = data.ui(world, input.editing);
                (outcome.message, outcome.hovered_tile)
            },
            State::PickingTilemap(data) => (data.ui(input.picked), None),
        };
        if let Message::Stay = self.pending {
            self.pending = message;
        }
        PanelFrame { hovered_tile }
    }

    /// One frame of the viewport: the mode's own frame and what its message
    /// asks for, and then what the message asks for that the panel had
    /// left. `seen` is the world as the viewport's own frame leaves it.
    pub fn viewport_ui(
        &mut self,
        world: &mut World,
        tile_data: Option<&mut HashMap<u32, TileData>>,
        input: ViewportInput,
    ) -> (frame: ViewportFrame)
        ensures
            final(self).pending is Stay,
            exists|mid: State, seen: World|
                {
                    &&& viewport_outcome(
                        old(self).state,
                        mid,
                        *old(world),
                        seen,
                        data_view(tile_data),
                        match tile_data {
                            Some(data) => Some(final(data)@),
                            None => None,
                        },
                        input,
                        frame.handled,
                        frame.report,
                    )
                    &&& #[trigger] handled(
                        mid,
                        final(self).state,
                        entities(seen),
                        old(self).pending,
                        frame.panel,
                    )
                    &&& entities(*final(world)) == entities(seen)
                    &&& old(self).pending !is EditTilemap ==> *final(world) == seen
                },
    {
        let outcome = match &mut self.state {
            State::Editing(data) => data.viewport_ui(world, tile_data, input),
            State::PickingTilemap(data) => ViewportOutcome {
                message: data.viewport_ui(),
                report: None,
            },
        };
        let own = self.handle_message(outcome.message, world);
        let ghost mid = self.state;
        let ghost seen = *world;
        let mut waiting = Message::Stay;
        core::mem::swap(&mut self.pending, &mut waiting);
        let panel = self.handle_message(waiting, world);
        assert(handled(mid, self.state, entities(seen), old(self).pending, panel));
        ViewportFrame { handled: own, panel, report: outcome.report }
    }
}

impl Default for EditorState {
    /// An editor that waits for a tilemap to be chosen.
    fn default() -> (editor: Self)
        ensures
            editor.state is PickingTilemap,
            editor.pending is Stay,
    {
        Self { state: State::PickingTilemap(picking_tilemap::StateData::empty()), pending: Message::Stay }
    }
}

} // verus!
