//! The steps that place rooms and corridors, and the generator that runs a
//! plan of steps from an empty floor plan.

use vstd::prelude::*;
use crate::door::{add_door, door_can_be_placed, places_door};
use crate::dungeon_state::{
    DungeonLayout, DungeonState, DungeonStateBuilder, LayoutView, StateView,
};
use crate::error::{GenerationError, PlacedShape};
use crate::key::{add_key, key_can_be_placed, places_key};
use crate::plan::{
    beginning_of_sure_plan_is_sure, is_outcome_of, is_reached_by, is_run, is_stopped_by,
    plan_surely_succeeds,
    run_reaches_outcome, step_extends_outcome, sure_step_succeeds_on_outcome,
};
use crate::random::RandomSource;
use crate::room::Orientation::{DOWN, LEFT, RIGHT, UP};
use crate::room::{
    collide, corridor_clears_the_room_it_enters, Corridor, IShape, Rectangle, Room,
};
use crate::spawn_generation::{
    place_player_spawn, player_can_be_placed, places_player, SpawnType,
};
use crate::vector::IVec2;

verus! {

/// The least width and height of a generated room.
pub const ROOM_SIZE_MIN: u32 = 6;

/// One more than the greatest width and height of a generated room.
pub const ROOM_SIZE_END: u32 = 16;

/// The least coordinate of the region in which the first room is put.
pub const SEED_REGION_MIN: i32 = 20;

/// One more than the greatest coordinate of that region.
pub const SEED_REGION_END: i32 = 25;

/// The least length of a generated corridor.
pub const CORRIDOR_LENGTH_MIN: u32 = 3;

/// One more than the greatest length of a generated corridor.
pub const CORRIDOR_LENGTH_END: u32 = 12;

/// Whether `room` can be added to the plan: it fits on the grid and collides
/// with nothing that is there.
pub open spec fn room_can_be_placed(layout: LayoutView, room: Room) -> bool {
    room.fits_grid() && layout.admits(room)
}

/// Whether `corridor` can be added to the plan: it fits on the grid and
/// collides with nothing that is there.
pub open spec fn corridor_can_be_placed(layout: LayoutView, corridor: Corridor) -> bool {
    corridor.fits_grid() && layout.admits(corridor)
}

/// Adds `room` after the rooms of the plan, unless it collides with a room or
/// corridor of the plan or does not fit on the grid.
pub fn place_room(
    state: &DungeonState,
    room: Room,
) -> (result: Result<DungeonState, GenerationError>)
    ensures
        match result {
            Ok(next) => room_can_be_placed(state@.layout, room) && next@ == state@.with_room(room),
            Err(error) => !room_can_be_placed(state@.layout, room) && error
                == GenerationError::PlacementCollision(PlacedShape::Room),
        },
{
    let far_x: i64 = room.position.x as i64 + room.shape.width as i64 - 1;
    let far_y: i64 = room.position.y as i64 + room.shape.height as i64 - 1;
    let fits = far_x <= i32::MAX as i64 && far_y <= i32::MAX as i64;

    if fits && state.layout.admits(&room) {
        let mut rooms = state.layout.rooms.clone();
        assert(rooms@ =~= state.layout.rooms@);
        rooms.push(room);

        return Ok(DungeonStateBuilder::from_state(state).rooms(rooms).build());
    }
    Err(GenerationError::PlacementCollision(PlacedShape::Room))
}

/// Adds `corridor` after the corridors of the plan, unless it collides with a
/// room or corridor of the plan or does not fit on the grid.
pub fn place_corridor(
    state: &DungeonState,
    corridor: Corridor,
) -> (result: Result<DungeonState, GenerationError>)
    ensures
        match result {
            Ok(next) => corridor_can_be_placed(state@.layout, corridor) && next@
                == state@.with_corridor(corridor),
            Err(error) => !corridor_can_be_placed(state@.layout, corridor) && error
                == GenerationError::PlacementCollision(PlacedShape::Corridor),
        },
{
    let fits = corridor.shape.length >= 1 && corridor.end_cell().narrow().is_some();

    if fits && state.layout.admits(&corridor) {
        let mut corridors = state.layout.corridors.clone();
        assert(corridors@ =~= state.layout.corridors@);
        corridors.push(corridor);

        return Ok(DungeonStateBuilder::from_state(state).corridors(corridors).build());
    }
    Err(GenerationError::PlacementCollision(PlacedShape::Corridor))
}

/// Whether [`add_room`] may draw a room of size `shape`, and with it `slide`
/// for the place along the edge where a corridor is to enter, or `seed` for
/// the room's lower-left cell where the plan has no corridor.
pub open spec fn room_draw_in_bounds(
    layout: LayoutView,
    shape: Rectangle,
    slide: u32,
    seed: IVec2,
) -> bool {
    &&& ROOM_SIZE_MIN <= shape.width < ROOM_SIZE_END
    &&& ROOM_SIZE_MIN <= shape.height < ROOM_SIZE_END
    &&& if layout.corridors.len() == 0 {
        &&& SEED_REGION_MIN <= seed.x < SEED_REGION_END
        &&& SEED_REGION_MIN <= seed.y < SEED_REGION_END
    } else if layout.corridors.last().shape.orientation.is_vertical() {
        1 <= slide <= shape.width - 2
    } else {
        1 <= slide <= shape.height - 2
    }
}

/// The room that [`add_room`] proposes for what it drew, if that room's
/// lower-left cell is a cell of the grid.
pub open spec fn room_proposal(
    layout: LayoutView,
    shape: Rectangle,
    slide: u32,
    seed: IVec2,
) -> Option<Room> {
    if layout.corridors.len() == 0 {
        Some(Room { shape, position: seed })
    } else {
        Room::at_end_of(&layout.corridors.last(), shape, slide)
    }
}

/// Whether [`add_room`] may draw these values and cannot add the room that it
/// proposes for them.
pub open spec fn room_draw_is_rejected(
    layout: LayoutView,
    shape: Rectangle,
    slide: u32,
    seed: IVec2,
) -> bool {
    &&& room_draw_in_bounds(layout, shape, slide, seed)
    &&& match room_proposal(layout, shape, slide, seed) {
        Some(room) => !room_can_be_placed(layout, room),
        None => true,
    }
}

/// Whether [`add_corridor`] may draw a corridor of this direction and length,
/// and with it `index` for the room that the corridor leaves and `slide` for
/// the place along that room's edge.
pub open spec fn corridor_draw_in_bounds(
    layout: LayoutView,
    shape: IShape,
    index: int,
    slide: u32,
) -> bool {
    &&& CORRIDOR_LENGTH_MIN <= shape.length < CORRIDOR_LENGTH_END
    &&& layout.rooms.len() > 0 ==> {
        &&& 0 <= index < layout.rooms.len()
        &&& layout.rooms[index].edge_length(shape.orientation) >= 3 ==> 1 <= slide
            <= layout.rooms[index].edge_length(shape.orientation) - 2
    }
}

/// The corridor that [`add_corridor`] proposes for what it drew, if the edge
/// of the room has a cell for the corridor to start at.
pub open spec fn corridor_proposal(
    layout: LayoutView,
    shape: IShape,
    index: int,
    slide: u32,
) -> Option<Corridor> {
    if layout.rooms.len() == 0 {
        Some(Corridor { shape, position: IVec2 { x: 0, y: 0 } })
    } else if layout.rooms[index].edge_length(shape.orientation) >= 3 {
        match layout.rooms[index].edge_cell(shape.orientation, slide) {
            Some(position) => Some(Corridor { shape, position }),
            None => None,
        }
    } else {
        None
    }
}

/// Whether [`add_corridor`] may draw these values and cannot add the corridor
/// that it proposes for them.
pub open spec fn corridor_draw_is_rejected(
    layout: LayoutView,
    shape: IShape,
    index: int,
    slide: u32,
) -> bool {
    &&& corridor_draw_in_bounds(layout, shape, index, slide)
    &&& match corridor_proposal(layout, shape, index, slide) {
        Some(corridor) => !corridor_can_be_placed(layout, corridor),
        None => true,
    }
}

/// Whether `room` is a room that [`add_room`] may add to the plan: of a size
/// within the bounds, fitting on the grid and colliding with nothing of the
/// plan. Where the plan has no corridor the room lies with its lower-left cell
/// in the seed region; else the corridor added last ends in the border of the
/// room.
pub open spec fn is_generated_room(layout: LayoutView, room: Room) -> bool {
    &&& ROOM_SIZE_MIN <= room.shape.width < ROOM_SIZE_END
    &&& ROOM_SIZE_MIN <= room.shape.height < ROOM_SIZE_END
    &&& room_can_be_placed(layout, room)
    &&& if layout.corridors.len() == 0 {
        &&& SEED_REGION_MIN <= room.position.x < SEED_REGION_END
        &&& SEED_REGION_MIN <= room.position.y < SEED_REGION_END
    } else {
        room.is_entered_by(layout.corridors.last())
    }
}

/// Whether `corridor` is a corridor that [`add_corridor`] may add to the plan:
/// of a length within the bounds, fitting on the grid and colliding with
/// nothing of the plan. Where the plan has no room the corridor starts at the
/// origin; else it starts in the border of one of the rooms and runs away
/// from that room.
pub open spec fn is_generated_corridor(layout: LayoutView, corridor: Corridor) -> bool {
    &&& CORRIDOR_LENGTH_MIN <= corridor.shape.length < CORRIDOR_LENGTH_END
    &&& corridor_can_be_placed(layout, corridor)
    &&& if layout.rooms.len() == 0 {
        corridor.position == (IVec2 { x: 0, y: 0 })
    } else {
        exists|i: int|
            0 <= i < layout.rooms.len() && (#[trigger] layout.rooms[i]).is_left_by(corridor)
    }
}

/// What [`add_room`] has done where it went through: `after` is `before` with
/// one more room, which [`is_generated_room`] describes.
pub open spec fn adds_room(before: StateView, after: StateView) -> bool {
    &&& after.layout.rooms.len() > 0
    &&& after == before.with_room(after.layout.rooms.last())
    &&& is_generated_room(before.layout, after.layout.rooms.last())
}

/// What [`add_corridor`] has done where it went through: `after` is `before`
/// with one more corridor, which [`is_generated_corridor`] describes.
pub open spec fn adds_corridor(before: StateView, after: StateView) -> bool {
    &&& after.layout.corridors.len() > 0
    &&& after == before.with_corridor(after.layout.corridors.last())
    &&& is_generated_corridor(before.layout, after.layout.corridors.last())
}

/// What [`add_corridor_then_room`] has done where it went through: a corridor
/// was added as by [`add_corridor`], and then a room at its end as by
/// [`add_room`].
pub open spec fn adds_corridor_then_room(before: StateView, after: StateView) -> bool {
    let between = before.with_corridor(after.layout.corridors.last());
    adds_corridor(before, between) && adds_room(between, after)
}

/// Whether [`add_corridor_then_room`] may draw a corridor that it cannot add,
/// or a corridor that it can add and then a room that it cannot add.
pub open spec fn corridor_then_room_is_rejected(layout: LayoutView) -> bool {
    ||| exists|shape: IShape, index: int, slide: u32| #[trigger]
        corridor_draw_is_rejected(layout, shape, index, slide)
    ||| exists|corridor: Corridor, shape: Rectangle, slide: u32, seed: IVec2|
        is_generated_corridor(layout, corridor) && #[trigger] room_draw_is_rejected(
            layout.with_corridor(corridor),
            shape,
            slide,
            seed,
        )
}

/// Proposes a room and adds it to the plan if it collides with nothing there.
///
/// The room's width and height are drawn from `ROOM_SIZE_MIN..ROOM_SIZE_END`.
/// Where the plan has no corridor, the room's lower-left cell is drawn from
/// the seed region. Else the room is put at the end of the corridor added
/// last, so that the corridor's last cell is a cell of the room's border: of
/// the edge that the corridor runs into, at a place drawn from the cells of
/// that edge without its corners.
pub fn add_room(state: &DungeonState) -> (result: Result<DungeonState, GenerationError>)
    ensures
        match result {
            Ok(next) => adds_room(state@, next@),
            Err(error) => error == GenerationError::PlacementCollision(PlacedShape::Room)
                && exists|shape: Rectangle, slide: u32, seed: IVec2| #[trigger]
                    room_draw_is_rejected(state@.layout, shape, slide, seed),
        },
{
    let width: u32 = state.rng.gen_range(ROOM_SIZE_MIN as u64, ROOM_SIZE_END as u64) as u32;
    let height: u32 = state.rng.gen_range(ROOM_SIZE_MIN as u64, ROOM_SIZE_END as u64) as u32;
    let shape = Rectangle { width, height };

    let ghost mut slid: u32 = 0;
    let ghost mut seed: IVec2 = IVec2 { x: 0, y: 0 };

    let corridor_count = state.layout.corridors.len();
    let candidate = if corridor_count > 0 {
        let corridor = state.layout.corridors[corridor_count - 1];
        let slide: u32 = match corridor.shape.orientation {
            DOWN | UP => state.rng.gen_range(1, width as u64 - 1) as u32,
            LEFT | RIGHT => state.rng.gen_range(1, height as u64 - 1) as u32,
        };
        proof {
            slid = slide;
        }
        Room::at_end_of(&corridor, shape, slide)
    } else {
        let x: i32 = state.rng.gen_range(SEED_REGION_MIN as u64, SEED_REGION_END as u64) as i32;
        let y: i32 = state.rng.gen_range(SEED_REGION_MIN as u64, SEED_REGION_END as u64) as i32;
        proof {
            seed = IVec2 { x, y };
        }
        Some(Room { shape, position: IVec2::new(x, y) })
    };
    assert(room_draw_in_bounds(state@.layout, shape, slid, seed));
    assert(candidate == room_proposal(state@.layout, shape, slid, seed));

    let result = match candidate {
        Some(room) => place_room(state, room),
        None => Err(GenerationError::PlacementCollision(PlacedShape::Room)),
    };
    assert(result is Err ==> room_draw_is_rejected(state@.layout, shape, slid, seed));
    result
}

/// Proposes a corridor and adds it to the plan if it collides with nothing
/// there.
///
/// The corridor's direction is drawn from the four. Where the plan has rooms,
/// one of them is drawn, and the corridor starts in its border: on the edge
/// that faces the corridor's direction, at a place drawn from the cells of
/// that edge without its corners. Where the plan has no room, the corridor
/// starts at the origin. Its length is drawn from
/// `CORRIDOR_LENGTH_MIN..CORRIDOR_LENGTH_END`.
pub fn add_corridor(state: &DungeonState) -> (result: Result<DungeonState, GenerationError>)
    ensures
        match result {
            Ok(next) => adds_corridor(state@, next@),
            Err(error) => error == GenerationError::PlacementCollision(PlacedShape::Corridor)
                && exists|shape: IShape, index: int, slide: u32| #[trigger]
                    corridor_draw_is_rejected(state@.layout, shape, index, slide),
        },
{
    let num: u64 = state.rng.gen_range(0, 4);

    let orientation = if num == 0 {
        UP
    } else if num == 1 {
        DOWN
    } else if num == 2 {
        LEFT
    } else {
        RIGHT
    };

    let ghost mut picked: int = 0;
    let ghost mut slid: u32 = 0;

    let room_count = state.layout.rooms.len();
    let start = if room_count > 0 {
        let index: usize = state.rng.gen_range(0, room_count as u64) as usize;
        let room = state.layout.rooms[index];
        let edge: u32 = room.edge_length(orientation);
        proof {
            picked = index as int;
        }
        if edge >= 3 {
            let slide: u32 = state.rng.gen_range(1, edge as u64 - 1) as u32;
            proof {
                slid = slide;
            }
            room.edge_cell(orientation, slide)
        } else {
            None
        }
    } else {
        Some(IVec2::new(0, 0))
    };

    let length: u32 = state.rng.gen_range(
        CORRIDOR_LENGTH_MIN as u64,
        CORRIDOR_LENGTH_END as u64,
    ) as u32;
    let shape = IShape { orientation, length };
    assert(corridor_draw_in_bounds(state@.layout, shape, picked, slid));

    let result = match start {
        Some(position) => {
            let corridor = Corridor { shape, position };
            assert(corridor_proposal(state@.layout, shape, picked, slid) == Some(corridor));
            assert(room_count > 0 ==> state@.layout.rooms[picked].is_left_by(corridor));
            place_corridor(state, corridor)
        },
        None => Err(GenerationError::PlacementCollision(PlacedShape::Corridor)),
    };
    assert(result is Err ==> corridor_draw_is_rejected(state@.layout, shape, picked, slid));
    result
}

/// Adds a corridor as [`add_corridor`] does and then a room at its end as
/// [`add_room`] does. Where either fails the step fails, and nothing of the
/// corridor is kept.
pub fn add_corridor_then_room(
    state: &DungeonState,
) -> (result: Result<DungeonState, GenerationError>)
    ensures
        match result {
            Ok(next) => adds_corridor_then_room(state@, next@),
            Err(error) => error matches GenerationError::PlacementCollision(_)
                && corridor_then_room_is_rejected(state@.layout),
        },
{
    match add_corridor(state) {
        Ok(between) => {
            let result = add_room(&between);
            proof {
                let corridor = between@.layout.corridors.last();
                assert(between@.layout == state@.layout.with_corridor(corridor));
                if result is Ok {
                    let after = result->Ok_0@;
                    assert(after.layout.corridors.last() == corridor);
                    assert(between@ == state@.with_corridor(after.layout.corridors.last()));
                }
            }
            result
        },
        Err(error) => Err(error),
    }
}

/// Every room that [`add_room`] may propose on the empty plan can be added to it.
pub proof fn empty_plan_takes_every_room(shape: Rectangle, slide: u32, seed: IVec2)
    ensures
        !room_draw_is_rejected(LayoutView::empty(), shape, slide, seed),
{
}

/// Every corridor that [`add_corridor`] may propose on the empty plan can be
/// added to it.
pub proof fn empty_plan_takes_every_corridor(shape: IShape, index: int, slide: u32)
    ensures
        !corridor_draw_is_rejected(LayoutView::empty(), shape, index, slide),
{
}

/// On a plan that holds nothing but one corridor that [`add_corridor`] has
/// added, every room that [`add_room`] may propose can be added: the room
/// meets the corridor at the corridor's last cell and does not collide with it.
pub proof fn lone_corridor_takes_every_room(
    corridor: Corridor,
    shape: Rectangle,
    slide: u32,
    seed: IVec2,
)
    requires
        is_generated_corridor(LayoutView::empty(), corridor),
    ensures
        !room_draw_is_rejected(LayoutView::empty().with_corridor(corridor), shape, slide, seed),
{
    let layout = LayoutView::empty().with_corridor(corridor);
    if room_draw_in_bounds(layout, shape, slide, seed) {
        assert(layout.corridors.last() == corridor);
        let room = room_proposal(layout, shape, slide, seed)->Some_0;
        assert(room_proposal(layout, shape, slide, seed) is Some);
        assert(room.is_entered_by(corridor));
        corridor_clears_the_room_it_enters(room, corridor);
        assert(layout.admits(room));
    }
}

/// [`add_corridor_then_room`] cannot fail on the empty plan.
pub proof fn empty_plan_takes_corridor_then_room()
    ensures
        !corridor_then_room_is_rejected(LayoutView::empty()),
{
    assert forall|shape: IShape, index: int, slide: u32|
        !corridor_draw_is_rejected(LayoutView::empty(), shape, index, slide) by {
        empty_plan_takes_every_corridor(shape, index, slide);
    }
    assert forall|corridor: Corridor, shape: Rectangle, slide: u32, seed: IVec2|
        is_generated_corridor(LayoutView::empty(), corridor) implies !room_draw_is_rejected(
        LayoutView::empty().with_corridor(corridor),
        shape,
        slide,
        seed,
    ) by {
        lone_corridor_takes_every_room(corridor, shape, slide, seed);
    }
}

/// Two rooms that both lie with their lower-left cell in the seed region, each
/// of a size within the bounds, collide: the region is smaller than any room.
/// So on a plan without corridors [`add_room`] goes through once and never
/// again.
pub proof fn rooms_in_the_seed_region_collide(first: Room, second: Room)
    requires
        is_generated_room(LayoutView::empty(), first),
        ROOM_SIZE_MIN <= second.shape.width < ROOM_SIZE_END,
        ROOM_SIZE_MIN <= second.shape.height < ROOM_SIZE_END,
        SEED_REGION_MIN <= second.position.x < SEED_REGION_END,
        SEED_REGION_MIN <= second.position.y < SEED_REGION_END,
    ensures
        collide(first, second),
        !room_can_be_placed(LayoutView::empty().with_room(first), second),
{
    let layout = LayoutView::empty().with_room(first);
    assert(layout.rooms[0] == first);
}

/// A generation step: what the generator can be asked to do to a state.
#[derive(Clone, Copy, Debug, PartialEq, Eq, Structural)]
pub enum Step {
    /// [`add_room`].
    AddRoom,
    /// [`add_corridor`].
    AddCorridor,
    /// [`add_corridor_then_room`].
    AddCorridorThenRoom,
    /// [`place_player_spawn`].
    PlacePlayerSpawn,
    /// [`add_key`].
    AddKey,
    /// [`add_door`].
    AddDoor,
}

/// A step of a plan, and whether it is tried again when it fails.
#[derive(Clone, Copy, Debug, PartialEq, Eq, Structural)]
pub struct PlannedStep {
    pub step: Step,
    pub retryable: bool,
}

/// How often a retryable step is tried before the run gives up.
pub const MAX_RETRIES: u32 = 1000;

impl Step {
    /// What the step has done where it went through.
    pub open spec fn achieves(self, before: StateView, after: StateView) -> bool {
        match self {
            Step::AddRoom => adds_room(before, after),
            Step::AddCorridor => adds_corridor(before, after),
            Step::AddCorridorThenRoom => adds_corridor_then_room(before, after),
            Step::PlacePlayerSpawn => places_player(before, after),
            Step::AddKey => places_key(before, after),
            Step::AddDoor => places_door(before, after),
        }
    }

    /// Whether `error` is a failure that the step reports.
    pub open spec fn may_fail_with(self, error: GenerationError) -> bool {
        match self {
            Step::AddRoom => error == GenerationError::PlacementCollision(PlacedShape::Room),
            Step::AddCorridor => error == GenerationError::PlacementCollision(
                PlacedShape::Corridor,
            ),
            Step::AddCorridorThenRoom => error matches GenerationError::PlacementCollision(_),
            Step::PlacePlayerSpawn => error == GenerationError::PrerequisiteMissing(
                SpawnType::Player,
            ),
            Step::AddKey => error == GenerationError::PrerequisiteMissing(SpawnType::Key),
            Step::AddDoor => error == GenerationError::PrerequisiteMissing(SpawnType::Door),
        }
    }

    /// Whether the step goes through on the plan whatever it draws.
    pub open spec fn surely_succeeds(self, layout: LayoutView) -> bool {
        match self {
            Step::AddRoom => layout == LayoutView::empty(),
            Step::AddCorridor => layout == LayoutView::empty(),
            Step::AddCorridorThenRoom => layout == LayoutView::empty(),
            Step::PlacePlayerSpawn => player_can_be_placed(layout),
            Step::AddKey => key_can_be_placed(layout),
            Step::AddDoor => door_can_be_placed(layout),
        }
    }

    /// Makes one attempt at the step.
    pub fn apply(self, state: &DungeonState) -> (result: Result<DungeonState, GenerationError>)
        ensures
            match result {
                Ok(next) => self.achieves(state@, next@),
                Err(error) => self.may_fail_with(error) && !self.surely_succeeds(state@.layout),
            },
    {
        proof {
            assert forall|shape: Rectangle, slide: u32, seed: IVec2|
                !room_draw_is_rejected(LayoutView::empty(), shape, slide, seed) by {
                empty_plan_takes_every_room(shape, slide, seed);
            }
            assert forall|shape: IShape, index: int, slide: u32|
                !corridor_draw_is_rejected(LayoutView::empty(), shape, index, slide) by {
                empty_plan_takes_every_corridor(shape, index, slide);
            }
            empty_plan_takes_corridor_then_room();
        }
        match self {
            Step::AddRoom => add_room(state),
            Step::AddCorridor => add_corridor(state),
            Step::AddCorridorThenRoom => add_corridor_then_room(state),
            Step::PlacePlayerSpawn => place_player_spawn(state),
            Step::AddKey => add_key(state),
            Step::AddDoor => add_door(state),
        }
    }
}

impl PlannedStep {
    /// Whether `error` is a failure that the planned step reports: that of the
    /// step itself, or, where the step is tried again, that of its last
    /// attempt inside the report that the retries ran out.
    pub open spec fn may_fail_with(self, error: GenerationError) -> bool {
        if self.retryable {
            error matches GenerationError::RetryBudgetExceeded(cause) && self.step.may_fail_with(
                *cause,
            )
        } else {
            self.step.may_fail_with(error)
        }
    }

    /// Runs the step on `state`. A step that is not retryable gets one
    /// attempt. A retryable step is tried on the same state, each time with
    /// new draws, until an attempt goes through or `MAX_RETRIES` attempts
    /// have failed.
    pub fn run(self, state: &DungeonState) -> (result: Result<DungeonState, GenerationError>)
        ensures
            match result {
                Ok(next) => self.step.achieves(state@, next@),
                Err(error) => self.may_fail_with(error) && !self.step.surely_succeeds(
                    state@.layout,
                ),
            },
    {
        if !self.retryable {
            return self.step.apply(state);
        }
        let mut attempt = self.step.apply(state);
        let mut retry_count: u32 = 1;
        while attempt.is_err() && retry_count < MAX_RETRIES
            invariant
                match attempt {
                    Ok(next) => self.step.achieves(state@, next@),
                    Err(error) => self.step.may_fail_with(error) && !self.step.surely_succeeds(
                        state@.layout,
                    ),
                },
            decreases MAX_RETRIES - retry_count,
        {
            attempt = self.step.apply(state);
            retry_count += 1;
        }
        match attempt {
            Ok(next) => Ok(next),
            Err(error) => Err(GenerationError::RetryBudgetExceeded(Box::new(error))),
        }
    }
}

/// A plan of generation steps, run in the order in which they were added.
pub struct DungeonGenerator {
    steps: Vec<PlannedStep>,
}

impl View for DungeonGenerator {
    type V = Seq<PlannedStep>;

    closed spec fn view(&self) -> Seq<PlannedStep> {
        self.steps@
    }
}

impl Default for DungeonGenerator {
    fn default() -> (generator: DungeonGenerator)
        ensures
            generator@ == Seq::<PlannedStep>::empty(),
    {
        DungeonGenerator { steps: Vec::new() }
    }
}

impl DungeonGenerator {
    /// A generator with an empty plan.
    pub fn new() -> (generator: DungeonGenerator)
        ensures
            generator@ == Seq::<PlannedStep>::empty(),
    {
        DungeonGenerator { steps: Vec::new() }
    }

    /// Runs the plan from a state without rooms, corridors and spawn points,
    /// with a random source of its own. See [`DungeonGenerator::generate_with`].
    pub fn generate(&self) -> (result: Result<DungeonState, GenerationError>)
        ensures
            match result {
                Ok(state) => is_reached_by(self@, state@) && is_outcome_of(self@, state@),
                Err(error) => is_stopped_by(self@, error),
            },
            plan_surely_succeeds(self@) ==> result is Ok,
    {
        self.generate_with(RandomSource::from_entropy())
    }

    /// Runs the plan from a state without rooms, corridors and spawn points
    /// that draws from `rng`.
    ///
    /// Each step works on the state that the step before it left. The run
    /// stops at the first step that fails, and its failure is the result: a
    /// step that is not retryable fails with its first attempt, a retryable
    /// step when its retries have run out. Where every step goes through, the
    /// result is the state that the last step left. A plan that
    /// [`plan_surely_succeeds`] goes through whatever is drawn.
    pub fn generate_with(
        &self,
        rng: RandomSource,
    ) -> (result: Result<DungeonState, GenerationError>)
        ensures
            match result {
                Ok(state) => {
                    &&& is_reached_by(self@, state@)
                    &&& is_outcome_of(self@, state@)
                    &&& state@.rng == rng
                },
                Err(error) => is_stopped_by(self@, error),
            },
            plan_surely_succeeds(self@) ==> result is Ok,
    {
        let layout = DungeonLayout::new();

        let mut state = DungeonState { layout, spawns: Vec::new(), rng };
        let ghost mut trace: Seq<StateView> = seq![state@];
        proof {
            run_reaches_outcome(self@.take(0), trace);
        }

        let mut i: usize = 0;
        while i < self.steps.len()
            invariant
                i <= self.steps.len(),
                is_run(self@.take(i as int), trace),
                trace.last() == state@,
                state@.rng == rng,
                is_outcome_of(self@.take(i as int), state@),
            decreases self.steps.len() - i,
        {
            let planned = self.steps[i];
            proof {
                assert(self@.take(i + 1).drop_last() == self@.take(i as int));
                if plan_surely_succeeds(self@) {
                    beginning_of_sure_plan_is_sure(self@, i + 1);
                    sure_step_succeeds_on_outcome(self@.take(i as int), planned.step, state@);
                }
            }
            match planned.run(&state) {
                Ok(next) => {
                    proof {
                        let longer = trace.push(next@);
                        assert forall|k: int| 0 <= k < i + 1 implies (#[trigger] self@.take(
                            i + 1,
                        )[k]).step.achieves(longer[k], longer[k + 1]) by {
                            if k < i {
                                assert(self@.take(i as int)[k].step.achieves(
                                    trace[k],
                                    trace[k + 1],
                                ));
                            }
                        }
                        step_extends_outcome(self@.take(i as int), planned, state@, next@);
                        assert(self@.take(i as int).push(planned) == self@.take(i + 1));
                        trace = longer;
                    }
                    state = next;
                },
                Err(error) => {
                    assert(is_run(self@.take(i as int), trace) && self@[i as int].may_fail_with(
                        error,
                    ));
                    return Err(error);
                },
            }
            i += 1;
        }
        assert(self@.take(i as int) == self@);
        assert(is_run(self@, trace) && trace.last() == state@);
        Ok(state)
    }

    /// The same generator with `step` at the end of its plan. Where the step
    /// fails, the run fails.
    pub fn add_step(self, step: Step) -> (generator: DungeonGenerator)
        ensures
            generator@ == self@.push(PlannedStep { step, retryable: false }),
    {
        let mut steps = self.steps;
        steps.push(PlannedStep { step, retryable: false });
        DungeonGenerator { steps }
    }

    /// The same generator with `step` at the end of its plan. Where the step
    /// fails it is tried again, up to `MAX_RETRIES` attempts in all.
    pub fn add_retryable_step(self, step: Step) -> (generator: DungeonGenerator)
        ensures
            generator@ == self@.push(PlannedStep { step, retryable: true }),
    {
        let mut steps = self.steps;
        steps.push(PlannedStep { step, retryable: true });
        DungeonGenerator { steps }
    }
}

} // verus!
