//! The state in which a tilemap is being chosen.

use crate::error::EditorError;
use crate::state::Message;
use bevy::ecs::entity::Entity;
use vstd::prelude::*;

verus! {

/// What is kept while a tilemap is being chosen: nothing.
pub struct StateData {}

/// The tilemap that the user chose from the list.
pub struct PickedTilemap {
    pub entity: Entity,
    /// Whether the tilemap is made of square tiles.
    pub square: bool,
}

/// What a frame of the panel asks for, given the tilemap that the user
/// chose: to edit it if it is made of square tiles, to show why it cannot be
/// edited if it is not, and nothing where none was chosen.
pub open spec fn chosen(picked: Option<PickedTilemap>) -> Message {
    match picked {
        Some(tilemap) => if tilemap.square {
            Message::EditTilemap(tilemap.entity)
        } else {
            Message::ShowErrorAndExitEditing(EditorError::UnsupportedTilemapType)
        },
        None => Message::Stay,
    }
}

impl StateData {
    pub fn empty() -> Self {
        Self {  }
    }

    pub fn new() -> Self {
        Self {  }
    }

    pub fn cleanup(self) {
    }

    /// The name under which a tilemap is listed.
    pub fn name_tilemap<'a>(&self, name: Option<&'a str>) -> (listed: &'a str)
        ensures
            listed@ == match name {
                Some(given) => given@,
                None => "Unnamed tilemap"@,
            },
    {
        match name {
            Some(given) => given,
            None => "Unnamed tilemap",
        }
    }

    /// One frame of the panel: a tilemap that was chosen is to be edited.
    /// Only tilemaps of square tiles can be edited; the choice of another
    /// one is refused with an error.
    pub fn ui(&mut self, picked: Option<PickedTilemap>) -> (message: Message)
        ensures
            message == chosen(picked),
    {
        match picked {
            Some(tilemap) => {
                if tilemap.square {
                    Message::EditTilemap(tilemap.entity)
                } else {
                    Message::ShowErrorAndExitEditing(EditorError::UnsupportedTilemapType)
                }
            },
            None => Message::Stay,
        }
    }

    /// One frame of the viewport: nothing to do.
    pub fn viewport_ui(&mut self) -> (message: Message)
        ensures
            message == Message::Stay,
    {
        Message::Stay
    }
}

} // verus!
