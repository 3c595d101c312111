//! What a plan of steps comes to: how many rooms, corridors and spawn points a
//! run of it leaves, what holds of every state that a run reaches, and which
//! plans cannot fail.

use vstd::prelude::*;
use crate::dungeon_generator::{
    is_generated_room, rooms_in_the_seed_region_collide, PlannedStep, Step, CORRIDOR_LENGTH_END,
    CORRIDOR_LENGTH_MIN, ROOM_SIZE_END, ROOM_SIZE_MIN,
};
use crate::dungeon_state::{LayoutView, StateView};
use crate::error::GenerationError;
use crate::room::{collide, Corridor, Room};
use crate::spawn_generation::{Spawn, SpawnType};

verus! {

/// How many rooms the step adds where it goes through.
pub open spec fn rooms_added(step: Step) -> nat {
    match step {
        Step::AddRoom => 1,
        Step::AddCorridorThenRoom => 1,
        _ => 0,
    }
}

/// How many corridors the step adds where it goes through.
pub open spec fn corridors_added(step: Step) -> nat {
    match step {
        Step::AddCorridor => 1,
        Step::AddCorridorThenRoom => 1,
        _ => 0,
    }
}

/// The types of the spawn points that the step adds where it goes through.
pub open spec fn spawns_added(step: Step) -> Seq<SpawnType> {
    match step {
        Step::PlacePlayerSpawn => seq![SpawnType::Player],
        Step::AddKey => seq![SpawnType::Key],
        Step::AddDoor => seq![SpawnType::Door],
        _ => Seq::empty(),
    }
}

/// How many rooms a run of the plan adds.
pub open spec fn plan_rooms(plan: Seq<PlannedStep>) -> nat
    decreases plan.len(),
{
    if plan.len() == 0 {
        0
    } else {
        plan_rooms(plan.drop_last()) + rooms_added(plan.last().step)
    }
}

/// How many corridors a run of the plan adds.
pub open spec fn plan_corridors(plan: Seq<PlannedStep>) -> nat
    decreases plan.len(),
{
    if plan.len() == 0 {
        0
    } else {
        plan_corridors(plan.drop_last()) + corridors_added(plan.last().step)
    }
}

/// The types of the spawn points that a run of the plan adds, in their order.
pub open spec fn plan_spawns(plan: Seq<PlannedStep>) -> Seq<SpawnType>
    decreases plan.len(),
{
    if plan.len() == 0 {
        Seq::empty()
    } else {
        plan_spawns(plan.drop_last()) + spawns_added(plan.last().step)
    }
}

/// Whether the step goes through, whatever it draws, on a generated plan of
/// so many rooms and corridors: a placement step on the empty plan, a spawn
/// step where the plan has a room or corridor to hold the spawn point.
pub open spec fn step_surely_succeeds_after(step: Step, rooms: nat, corridors: nat) -> bool {
    match step {
        Step::AddRoom => rooms == 0 && corridors == 0,
        Step::AddCorridor => rooms == 0 && corridors == 0,
        Step::AddCorridorThenRoom => rooms == 0 && corridors == 0,
        Step::PlacePlayerSpawn => rooms > 0,
        Step::AddKey => rooms > 0,
        Step::AddDoor => corridors > 0,
    }
}

/// Whether a run of the plan from the empty state goes through whatever is
/// drawn: each of its steps surely succeeds after the steps before it.
pub open spec fn plan_surely_succeeds(plan: Seq<PlannedStep>) -> bool
    decreases plan.len(),
{
    plan.len() > 0 ==> {
        &&& plan_surely_succeeds(plan.drop_last())
        &&& step_surely_succeeds_after(
            plan.last().step,
            plan_rooms(plan.drop_last()),
            plan_corridors(plan.drop_last()),
        )
    }
}

/// Whether `trace` lists the states of a run of the plan that went through:
/// it starts with a state without rooms, corridors and spawn points, and each
/// step of the plan leads from one state of the trace to the next.
pub open spec fn is_run(plan: Seq<PlannedStep>, trace: Seq<StateView>) -> bool {
    &&& trace.len() == plan.len() + 1
    &&& trace[0].layout == LayoutView::empty()
    &&& trace[0].spawns == Seq::<Spawn>::empty()
    &&& forall|i: int|
        0 <= i < plan.len() ==> (#[trigger] plan[i]).step.achieves(trace[i], trace[i + 1])
}

/// Whether a run of the plan that went through has ended in `state`.
pub open spec fn is_reached_by(plan: Seq<PlannedStep>, state: StateView) -> bool {
    exists|trace: Seq<StateView>| #[trigger] is_run(plan, trace) && trace.last() == state
}

/// Whether a run of the plan may stop with `error`: the steps before some step
/// of the plan went through, and that step may fail with `error` on the state
/// that they reached.
pub open spec fn is_stopped_by(plan: Seq<PlannedStep>, error: GenerationError) -> bool {
    exists|at: int, trace: Seq<StateView>|
        {
            &&& 0 <= at < plan.len()
            &&& #[trigger] is_run(plan.take(at), trace)
            &&& plan[at].may_fail_with(error)
            &&& !plan[at].step.surely_succeeds(trace.last().layout)
        }
}

/// Whether every room and corridor of the plan is of a size that the steps
/// give to what they add, and fits on the grid.
pub open spec fn is_generated_layout(layout: LayoutView) -> bool {
    &&& forall|i: int|
        0 <= i < layout.rooms.len() ==> {
            &&& ROOM_SIZE_MIN <= (#[trigger] layout.rooms[i]).shape.width < ROOM_SIZE_END
            &&& ROOM_SIZE_MIN <= layout.rooms[i].shape.height < ROOM_SIZE_END
            &&& layout.rooms[i].fits_grid()
        }
    &&& forall|i: int|
        0 <= i < layout.corridors.len() ==> {
            &&& CORRIDOR_LENGTH_MIN <= (#[trigger] layout.corridors[i]).shape.length
                < CORRIDOR_LENGTH_END
            &&& layout.corridors[i].fits_grid()
        }
}

/// The types of the spawn points, in their order.
pub open spec fn spawn_types(spawns: Seq<Spawn>) -> Seq<SpawnType> {
    spawns.map_values(|spawn: Spawn| spawn.spawn_type)
}

/// What holds of a state that a run of the plan has reached: no two shapes of
/// its floor plan collide, each is of a generated size and fits on the grid,
/// and it holds as many rooms, corridors and spawn points as the steps of the
/// plan add, the spawn points in the order of the steps.
pub open spec fn is_outcome_of(plan: Seq<PlannedStep>, state: StateView) -> bool {
    &&& state.layout.is_collision_free()
    &&& is_generated_layout(state.layout)
    &&& state.layout.rooms.len() == plan_rooms(plan)
    &&& state.layout.corridors.len() == plan_corridors(plan)
    &&& spawn_types(state.spawns) == plan_spawns(plan)
}

/// A step that goes through on a state adds a shape only where the shape
/// collides with nothing there: a floor plan without collisions stays without.
pub proof fn step_keeps_plan_free_of_collisions(step: Step, before: StateView, after: StateView)
    requires
        before.layout.is_collision_free(),
        step.achieves(before, after),
    ensures
        after.layout.is_collision_free(),
{
    match step {
        Step::AddRoom => {
            room_keeps_plan_free_of_collisions(before.layout, after.layout.rooms.last());
        },
        Step::AddCorridor => {
            corridor_keeps_plan_free_of_collisions(before.layout, after.layout.corridors.last());
        },
        Step::AddCorridorThenRoom => {
            let between = before.layout.with_corridor(after.layout.corridors.last());
            corridor_keeps_plan_free_of_collisions(before.layout, after.layout.corridors.last());
            room_keeps_plan_free_of_collisions(between, after.layout.rooms.last());
        },
        _ => {},
    }
}

/// Adding a room that collides with nothing of a plan without collisions
/// gives a plan without collisions.
pub proof fn room_keeps_plan_free_of_collisions(layout: LayoutView, room: Room)
    requires
        layout.is_collision_free(),
        layout.admits(room),
    ensures
        layout.with_room(room).is_collision_free(),
{
    let after = layout.with_room(room);
    assert forall|i: int, j: int| 0 <= i < j < after.rooms.len() implies !collide(
        #[trigger] after.rooms[i],
        #[trigger] after.rooms[j],
    ) by {
        if j < layout.rooms.len() {
            assert(after.rooms[i] == layout.rooms[i] && after.rooms[j] == layout.rooms[j]);
        } else {
            assert(after.rooms[i] == layout.rooms[i] && after.rooms[j] == room);
        }
    }
    assert forall|i: int, j: int|
        0 <= i < after.rooms.len() && 0 <= j < after.corridors.len() implies !collide(
        #[trigger] after.rooms[i],
        #[trigger] after.corridors[j],
    ) by {
        assert(after.corridors[j] == layout.corridors[j]);
        if i < layout.rooms.len() {
            assert(after.rooms[i] == layout.rooms[i]);
        } else {
            assert(after.rooms[i] == room);
        }
    }
}

/// Adding a corridor that collides with nothing of a plan without collisions
/// gives a plan without collisions.
pub proof fn corridor_keeps_plan_free_of_collisions(
    layout: LayoutView,
    corridor: Corridor,
)
    requires
        layout.is_collision_free(),
        layout.admits(corridor),
    ensures
        layout.with_corridor(corridor).is_collision_free(),
{
    let after = layout.with_corridor(corridor);
    assert forall|i: int, j: int|
        0 <= i < j < after.corridors.len() implies !collide(
        #[trigger] after.corridors[i],
        #[trigger] after.corridors[j],
    ) by {
        if j < layout.corridors.len() {
            assert(after.corridors[i] == layout.corridors[i] && after.corridors[j]
                == layout.corridors[j]);
        } else {
            assert(after.corridors[i] == layout.corridors[i] && after.corridors[j] == corridor);
        }
    }
    assert forall|i: int, j: int|
        0 <= i < after.rooms.len() && 0 <= j < after.corridors.len() implies !collide(
        #[trigger] after.rooms[i],
        #[trigger] after.corridors[j],
    ) by {
        assert(after.rooms[i] == layout.rooms[i]);
        if j < layout.corridors.len() {
            assert(after.corridors[j] == layout.corridors[j]);
        } else {
            assert(after.corridors[j] == corridor);
        }
    }
}

/// A step that goes through on a state that a run of `plan` has reached leads
/// to a state that a run of `plan` with the step after it reaches.
pub proof fn step_extends_outcome(
    plan: Seq<PlannedStep>,
    planned: PlannedStep,
    before: StateView,
    after: StateView,
)
    requires
        is_outcome_of(plan, before),
        planned.step.achieves(before, after),
    ensures
        is_outcome_of(plan.push(planned), after),
        after.rng == before.rng,
{
    let longer = plan.push(planned);
    assert(longer.drop_last() == plan);
    assert(longer.last() == planned);
    step_keeps_plan_free_of_collisions(planned.step, before, after);
    let tag = |spawn: Spawn| spawn.spawn_type;
    match planned.step {
        Step::AddRoom => {
            assert(spawn_types(after.spawns) == plan_spawns(plan) + Seq::<SpawnType>::empty());
        },
        Step::AddCorridor => {
            assert(spawn_types(after.spawns) == plan_spawns(plan) + Seq::<SpawnType>::empty());
        },
        Step::AddCorridorThenRoom => {
            assert(spawn_types(after.spawns) == plan_spawns(plan) + Seq::<SpawnType>::empty());
        },
        _ => {
            let spawn = after.spawns.last();
            assert(after.spawns == before.spawns.push(spawn));
            assert(after.spawns.map_values(tag) == before.spawns.map_values(tag).push(
                spawn.spawn_type,
            ));
            assert(spawn_types(after.spawns) == plan_spawns(plan) + seq![spawn.spawn_type]);
        },
    }
}

/// The state that a run has reached is an outcome of the plan, and holds the
/// random source that the first state held.
pub proof fn run_reaches_outcome(plan: Seq<PlannedStep>, trace: Seq<StateView>)
    requires
        is_run(plan, trace),
    ensures
        is_outcome_of(plan, trace.last()),
        trace.last().rng == trace[0].rng,
    decreases plan.len(),
{
    if plan.len() == 0 {
        assert(spawn_types(trace[0].spawns) == Seq::<SpawnType>::empty());
    } else {
        let shorter = plan.drop_last();
        let earlier = trace.drop_last();
        assert forall|i: int| 0 <= i < shorter.len() implies (#[trigger] shorter[i]).step.achieves(
            earlier[i],
            earlier[i + 1],
        ) by {
            assert(plan[i].step.achieves(trace[i], trace[i + 1]));
        }
        run_reaches_outcome(shorter, earlier);
        let last = plan.len() - 1;
        assert(plan[last].step.achieves(trace[last], trace[last + 1]));
        step_extends_outcome(shorter, plan.last(), earlier.last(), trace.last());
        assert(shorter.push(plan.last()) == plan);
    }
}

/// In a floor plan that a run has reached no two rooms collide, no corridor
/// collides with a room, and no two corridors collide.
pub proof fn run_leaves_no_collision(plan: Seq<PlannedStep>, trace: Seq<StateView>)
    requires
        is_run(plan, trace),
    ensures
        trace.last().layout.is_collision_free(),
{
    run_reaches_outcome(plan, trace);
}

/// Where a whole plan surely succeeds, so does each of its beginnings.
pub proof fn beginning_of_sure_plan_is_sure(plan: Seq<PlannedStep>, steps: int)
    requires
        plan_surely_succeeds(plan),
        0 <= steps <= plan.len(),
    ensures
        plan_surely_succeeds(plan.take(steps)),
    decreases plan.len(),
{
    if steps < plan.len() {
        beginning_of_sure_plan_is_sure(plan.drop_last(), steps);
        assert(plan.drop_last().take(steps) == plan.take(steps));
    } else {
        assert(plan.take(steps) == plan);
    }
}

/// A step that surely succeeds after a plan cannot fail on a state that a run
/// of that plan has reached.
pub proof fn sure_step_succeeds_on_outcome(plan: Seq<PlannedStep>, step: Step, state: StateView)
    requires
        is_outcome_of(plan, state),
        step_surely_succeeds_after(step, plan_rooms(plan), plan_corridors(plan)),
    ensures
        step.surely_succeeds(state.layout),
{
    match step {
        Step::AddRoom => {
            assert(state.layout.rooms =~= Seq::empty());
            assert(state.layout.corridors =~= Seq::empty());
        },
        Step::AddCorridor => {
            assert(state.layout.rooms =~= Seq::empty());
            assert(state.layout.corridors =~= Seq::empty());
        },
        Step::AddCorridorThenRoom => {
            assert(state.layout.rooms =~= Seq::empty());
            assert(state.layout.corridors =~= Seq::empty());
        },
        _ => {},
    }
}

/// Whether a plan without corridors holds at most one room, and that one with
/// its lower-left cell in the seed region.
pub open spec fn holds_at_most_the_seed_room(layout: LayoutView) -> bool {
    layout.corridors.len() == 0 ==> {
        &&& layout.rooms.len() <= 1
        &&& layout.rooms.len() == 1 ==> is_generated_room(LayoutView::empty(), layout.rooms[0])
    }
}

/// A run that adds no corridor adds at most one room: without a corridor to
/// put it at, every further room is proposed in the seed region, where it
/// collides with the first.
pub proof fn run_without_corridor_has_at_most_one_room(
    plan: Seq<PlannedStep>,
    trace: Seq<StateView>,
)
    requires
        is_run(plan, trace),
    ensures
        holds_at_most_the_seed_room(trace.last().layout),
        plan_corridors(plan) == 0 ==> plan_rooms(plan) <= 1,
    decreases plan.len(),
{
    run_reaches_outcome(plan, trace);
    if plan.len() > 0 {
        let shorter = plan.drop_last();
        let earlier = trace.drop_last();
        assert forall|i: int| 0 <= i < shorter.len() implies (#[trigger] shorter[i]).step.achieves(
            earlier[i],
            earlier[i + 1],
        ) by {
            assert(plan[i].step.achieves(trace[i], trace[i + 1]));
        }
        run_without_corridor_has_at_most_one_room(shorter, earlier);
        let last = plan.len() - 1;
        assert(plan[last].step.achieves(trace[last], trace[last + 1]));
        let before = earlier.last();
        let after = trace.last();
        if plan.last().step == Step::AddRoom && before.layout.corridors.len() == 0 {
            let room = after.layout.rooms.last();
            if before.layout.rooms.len() == 1 {
                let first = before.layout.rooms[0];
                rooms_in_the_seed_region_collide(first, room);
                assert(collide(first, room));
                assert(!before.layout.admits(room));
            } else {
                assert(before.layout.rooms =~= Seq::empty());
                assert(before.layout.corridors =~= Seq::empty());
                assert(before.layout == LayoutView::empty());
            }
        }
    }
}

/// The plan of one step [`Step::AddRoom`] surely succeeds, and a run of it
/// adds one room.
pub proof fn plan_of_one_room_surely_succeeds(retryable: bool)
    ensures
        plan_surely_succeeds(seq![PlannedStep { step: Step::AddRoom, retryable }]),
        plan_rooms(seq![PlannedStep { step: Step::AddRoom, retryable }]) == 1,
{
    let plan = seq![PlannedStep { step: Step::AddRoom, retryable }];
    assert(plan.drop_last() =~= Seq::empty());
    assert(plan_surely_succeeds(plan.drop_last()));
    assert(plan_rooms(plan.drop_last()) == 0);
    assert(plan_corridors(plan.drop_last()) == 0);
}

} // verus!
