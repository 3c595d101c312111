//! The step that places the door.

use vstd::prelude::*;
use crate::dungeon_state::{DungeonState, DungeonStateBuilder, LayoutView, StateView};
use crate::error::GenerationError;
use crate::spawn_generation::{Spawn, SpawnType};
use crate::vector::IVec2;

verus! {

/// The cell `steps` steps along the plan's corridor number `index`, if there
/// is such a corridor and the cell is one of its cells beyond the first.
pub open spec fn cell_in_corridor(layout: LayoutView, index: int, steps: u32) -> Option<IVec2> {
    if 0 <= index < layout.corridors.len() && 1 <= steps {
        layout.corridors[index].grid_cell(steps)
    } else {
        None
    }
}

/// Puts a door's spawn point `steps` steps along corridor number `index`.
/// Fails where the plan has no such corridor, or the cell is the corridor's
/// first, lies beyond its last, or is no cell of the grid.
pub fn place_door_in_corridor(state: &DungeonState, index: usize, steps: u32) -> (result: Result<
    DungeonState,
    GenerationError,
>)
    ensures
        match result {
            Ok(next) => cell_in_corridor(state@.layout, index as int, steps) matches Some(position)
                && next@ == state@.with_spawn(Spawn { position, spawn_type: SpawnType::Door }),
            Err(error) => cell_in_corridor(state@.layout, index as int, steps) is None && error
                == GenerationError::PrerequisiteMissing(SpawnType::Door),
        },
{
    if index >= state.layout.corridors.len() || steps < 1 {
        return Err(GenerationError::PrerequisiteMissing(SpawnType::Door));
    }
    match state.layout.corridors[index].grid_cell(steps) {
        Some(position) => {
            let mut spawns = state.spawns.clone();
            assert(spawns@ =~= state.spawns@);
            spawns.push(Spawn { position, spawn_type: SpawnType::Door });

            Ok(DungeonStateBuilder::from_state(state).spawns(spawns).build())
        },
        None => Err(GenerationError::PrerequisiteMissing(SpawnType::Door)),
    }
}

/// What [`add_door`] has done where it went through: `after` is `before` with
/// one more spawn point, the door's, on a cell of one of the corridors that is
/// not the corridor's first.
pub open spec fn places_door(before: StateView, after: StateView) -> bool {
    &&& after.spawns.len() > 0
    &&& after == before.with_spawn(after.spawns.last())
    &&& after.spawns.last().spawn_type == SpawnType::Door
    &&& exists|i: int, steps: int|
        0 <= i < before.layout.corridors.len() && 1 <= steps
            < before.layout.corridors[i].shape.length && #[trigger] before.layout.corridors[i].cell(
            steps,
        ) == (after.spawns.last().position.x as int, after.spawns.last().position.y as int)
}

/// Whether the plan has a corridor, and the door can be put into each of its
/// corridors.
pub open spec fn door_can_be_placed(layout: LayoutView) -> bool {
    &&& layout.corridors.len() > 0
    &&& forall|i: int|
        0 <= i < layout.corridors.len() ==> (#[trigger] layout.corridors[i]).is_usable()
}

/// Places the door's spawn point: picks one of the corridors, each with the
/// same chance, and then one of its cells beyond the first. Fails where the
/// plan has no corridor. The corridor picked may have no cell beyond its
/// first, or run off the grid: then the step fails too.
pub fn add_door(state: &DungeonState) -> (result: Result<DungeonState, GenerationError>)
    ensures
        match result {
            Ok(next) => places_door(state@, next@),
            Err(error) => error == GenerationError::PrerequisiteMissing(SpawnType::Door)
                && !door_can_be_placed(state@.layout),
        },
        state@.layout.corridors.len() == 0 ==> result is Err,
{
    if state.layout.corridors.len() == 0 {
        return Err(GenerationError::PrerequisiteMissing(SpawnType::Door));
    }
    let index: usize = state.rng.gen_range(0, state.layout.corridors.len() as u64) as usize;
    let corridor = state.layout.corridors[index];
    if !corridor.usable() {
        return Err(GenerationError::PrerequisiteMissing(SpawnType::Door));
    }
    let steps: u32 = state.rng.gen_range(1, corridor.shape.length as u64) as u32;

    let result = place_door_in_corridor(state, index, steps);
    proof {
        if result is Ok {
            let position = result->Ok_0@.spawns.last().position;
            assert(state@.layout.corridors[index as int].cell(steps as int) == (
                position.x as int,
                position.y as int,
            ));
        }
    }
    result
}

} // verus!
