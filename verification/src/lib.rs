//! Core of an in-editor tilemap painting tool for Bevy tilemaps: the
//! orientation codec, the grid coordinate arithmetic, the registry of extra
//! tile data, the tools that act on the hovered tile and the editor's mode
//! switch. The logic is verified against contracts for the calls that it
//! makes into the engine; drawing and input polling live with the embedding
//! application.

pub mod coord_utils;
pub mod error;
pub mod flip_rotation;
pub mod host;
pub mod palette;
pub mod reflection;
pub mod state;
pub mod tile_data;
pub mod tools;
