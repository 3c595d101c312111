//! Spawn points and the step that places the player's.

use vstd::prelude::*;
use crate::dungeon_state::{DungeonState, DungeonStateBuilder, LayoutView, StateView};
use crate::error::GenerationError;
use crate::vector::IVec2;

verus! {

/// What is to appear at a spawn point.
#[derive(Clone, Copy, Debug, PartialEq, Eq, Structural)]
pub enum SpawnType {
    Player,
    Key,
    Door,
}

/// A cell of the grid, tagged with what the game is to put there.
#[derive(Clone, Copy, Debug, PartialEq, Eq, Structural)]
pub struct Spawn {
    pub position: IVec2,
    pub spawn_type: SpawnType,
}

/// The cell `x` columns and `y` rows from the lower-left cell of the plan's
/// room number `index`, if there is such a room and the cell lies strictly
/// inside it.
pub open spec fn cell_in_room(layout: LayoutView, index: int, x: u32, y: u32) -> Option<IVec2> {
    if 0 <= index < layout.rooms.len() {
        layout.rooms[index].interior_cell(x, y)
    } else {
        None
    }
}

/// Puts a spawn point of type `spawn_type` into room number `index`, `x`
/// columns and `y` rows from the room's lower-left cell. Fails where the plan
/// has no such room or the cell is not strictly inside it.
pub fn place_spawn_in_room(
    state: &DungeonState,
    index: usize,
    x: u32,
    y: u32,
    spawn_type: SpawnType,
) -> (result: Result<DungeonState, GenerationError>)
    ensures
        match result {
            Ok(next) => cell_in_room(state@.layout, index as int, x, y) matches Some(position)
                && next@ == state@.with_spawn(Spawn { position, spawn_type }),
            Err(error) => cell_in_room(state@.layout, index as int, x, y) is None && error
                == GenerationError::PrerequisiteMissing(spawn_type),
        },
{
    if index >= state.layout.rooms.len() {
        return Err(GenerationError::PrerequisiteMissing(spawn_type));
    }
    match state.layout.rooms[index].interior_cell(x, y) {
        Some(position) => {
            let mut spawns = state.spawns.clone();
            assert(spawns@ =~= state.spawns@);
            spawns.push(Spawn { position, spawn_type });

            Ok(DungeonStateBuilder::from_state(state).spawns(spawns).build())
        },
        None => Err(GenerationError::PrerequisiteMissing(spawn_type)),
    }
}

/// What a spawn step that went through has done: `after` is `before` with one
/// more spawn point, of type `spawn_type`, strictly inside one of the rooms.
pub open spec fn places_in_some_room(
    before: StateView,
    after: StateView,
    spawn_type: SpawnType,
) -> bool {
    &&& after.spawns.len() > 0
    &&& after == before.with_spawn(after.spawns.last())
    &&& after.spawns.last().spawn_type == spawn_type
    &&& exists|i: int|
        0 <= i < before.layout.rooms.len() && (#[trigger] before.layout.rooms[i]).holds_inside(
            after.spawns.last().position,
        )
}

/// What [`place_player_spawn`] has done where it went through: `after` is
/// `before` with one more spawn point, the player's, strictly inside the
/// first room.
pub open spec fn places_player(before: StateView, after: StateView) -> bool {
    &&& before.layout.rooms.len() > 0
    &&& after.spawns.len() > 0
    &&& after == before.with_spawn(after.spawns.last())
    &&& after.spawns.last().spawn_type == SpawnType::Player
    &&& before.layout.rooms[0].holds_inside(after.spawns.last().position)
}

/// Whether the plan has a first room and the player can be put into it.
pub open spec fn player_can_be_placed(layout: LayoutView) -> bool {
    layout.rooms.len() > 0 && layout.rooms[0].is_usable()
}

/// Places the player's spawn point on a cell strictly inside the first room,
/// each such cell with the same chance. Fails where the plan has no room, or
/// its first room has no cell off its border or does not fit on the grid.
pub fn place_player_spawn(state: &DungeonState) -> (result: Result<DungeonState, GenerationError>)
    ensures
        match result {
            Ok(next) => places_player(state@, next@),
            Err(error) => error == GenerationError::PrerequisiteMissing(SpawnType::Player),
        },
        result is Ok <==> player_can_be_placed(state@.layout),
{
    if state.layout.rooms.len() == 0 {
        return Err(GenerationError::PrerequisiteMissing(SpawnType::Player));
    }
    let room = state.layout.rooms[0];
    if !room.usable() {
        return Err(GenerationError::PrerequisiteMissing(SpawnType::Player));
    }
    let x: u32 = state.rng.gen_range(1, room.shape.width as u64 - 1) as u32;
    let y: u32 = state.rng.gen_range(1, room.shape.height as u64 - 1) as u32;

    place_spawn_in_room(state, 0, x, y, SpawnType::Player)
}

} // verus!
