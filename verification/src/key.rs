//! The step that places the key.

use vstd::prelude::*;
use crate::dungeon_state::{DungeonState, LayoutView, StateView};
use crate::error::GenerationError;
use crate::spawn_generation::{place_spawn_in_room, places_in_some_room, SpawnType};

verus! {

/// What [`add_key`] has done where it went through: `after` is `before` with
/// one more spawn point, the key's, strictly inside one of the rooms.
pub open spec fn places_key(before: StateView, after: StateView) -> bool {
    places_in_some_room(before, after, SpawnType::Key)
}

/// Whether the plan has a room, and the key can be put into each of its rooms.
pub open spec fn key_can_be_placed(layout: LayoutView) -> bool {
    &&& layout.rooms.len() > 0
    &&& forall|i: int| 0 <= i < layout.rooms.len() ==> (#[trigger] layout.rooms[i]).is_usable()
}

/// Places the key's spawn point: picks one of the rooms, each with the same
/// chance, and then a cell strictly inside it. Fails where the plan has no
/// room. The room picked may have no cell off its border, or not fit on the
/// grid: then the step fails too.
pub fn add_key(state: &DungeonState) -> (result: Result<DungeonState, GenerationError>)
    ensures
        match result {
            Ok(next) => places_key(state@, next@),
            Err(error) => error == GenerationError::PrerequisiteMissing(SpawnType::Key)
                && !key_can_be_placed(state@.layout),
        },
        state@.layout.rooms.len() == 0 ==> result is Err,
{
    if state.layout.rooms.len() == 0 {
        return Err(GenerationError::PrerequisiteMissing(SpawnType::Key));
    }
    let index: usize = state.rng.gen_range(0, state.layout.rooms.len() as u64) as usize;
    let room = state.layout.rooms[index];
    if !room.usable() {
        return Err(GenerationError::PrerequisiteMissing(SpawnType::Key));
    }
    let x: u32 = state.rng.gen_range(1, room.shape.width as u64 - 1) as u32;
    let y: u32 = state.rng.gen_range(1, room.shape.height as u64 - 1) as u32;

    place_spawn_in_room(state, index, x, y, SpawnType::Key)
}

} // verus!
