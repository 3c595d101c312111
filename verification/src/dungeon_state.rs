//! What a generation run has built so far, and the builder that derives the
//! next state from it.

use vstd::prelude::*;
use crate::random::RandomSource;
use crate::room::{collide, Collision, Corridor, Room};
use crate::spawn_generation::Spawn;

verus! {

/// The rooms and corridors of a floor plan, each list in the order in which
/// its shapes were added.
#[derive(Debug, Default)]
pub struct DungeonLayout {
    pub rooms: Vec<Room>,
    pub corridors: Vec<Corridor>,
}

/// A floor plan as two sequences of shapes.
pub struct LayoutView {
    pub rooms: Seq<Room>,
    pub corridors: Seq<Corridor>,
}

/// The state of a generation run: the floor plan, the spawn points in the
/// order in which they were placed, and a handle on the run's random source.
pub struct DungeonState {
    pub layout: DungeonLayout,
    pub spawns: Vec<Spawn>,
    pub rng: RandomSource,
}

/// A generation state as sequences, with the handle on its random source.
pub struct StateView {
    pub layout: LayoutView,
    pub spawns: Seq<Spawn>,
    pub rng: RandomSource,
}

/// Holds the parts of a state while they are put together.
pub struct DungeonStateBuilder {
    layout: DungeonLayout,
    spawns: Vec<Spawn>,
    rng: RandomSource,
}

impl LayoutView {
    /// The floor plan without rooms and corridors.
    pub open spec fn empty() -> LayoutView {
        LayoutView { rooms: Seq::empty(), corridors: Seq::empty() }
    }

    /// Whether no room and no corridor of the plan collides with `shape`.
    pub open spec fn admits<S: Collision>(self, shape: S) -> bool {
        &&& forall|i: int|
            0 <= i < self.rooms.len() ==> !collide(#[trigger] self.rooms[i], shape)
        &&& forall|i: int|
            0 <= i < self.corridors.len() ==> !collide(#[trigger] self.corridors[i], shape)
    }

    /// Whether no two shapes of the plan collide: no room with another room,
    /// no corridor with a room, no corridor with another corridor. The box of
    /// a corridor leaves out the two cells at which it meets rooms, so a
    /// corridor and the rooms it joins do not collide.
    pub open spec fn is_collision_free(self) -> bool {
        &&& forall|i: int, j: int|
            0 <= i < j < self.rooms.len() ==> !collide(
                #[trigger] self.rooms[i],
                #[trigger] self.rooms[j],
            )
        &&& forall|i: int, j: int|
            0 <= i < self.rooms.len() && 0 <= j < self.corridors.len() ==> !collide(
                #[trigger] self.rooms[i],
                #[trigger] self.corridors[j],
            )
        &&& forall|i: int, j: int|
            0 <= i < j < self.corridors.len() ==> !collide(
                #[trigger] self.corridors[i],
                #[trigger] self.corridors[j],
            )
    }
}

impl LayoutView {
    /// The plan with `room` added after its rooms.
    pub open spec fn with_room(self, room: Room) -> LayoutView {
        LayoutView { rooms: self.rooms.push(room), ..self }
    }

    /// The plan with `corridor` added after its corridors.
    pub open spec fn with_corridor(self, corridor: Corridor) -> LayoutView {
        LayoutView { corridors: self.corridors.push(corridor), ..self }
    }
}

impl StateView {
    /// The state with `room` added after its rooms.
    pub open spec fn with_room(self, room: Room) -> StateView {
        StateView { layout: self.layout.with_room(room), ..self }
    }

    /// The state with `corridor` added after its corridors.
    pub open spec fn with_corridor(self, corridor: Corridor) -> StateView {
        StateView { layout: self.layout.with_corridor(corridor), ..self }
    }

    /// The state with `spawn` added after its spawn points.
    pub open spec fn with_spawn(self, spawn: Spawn) -> StateView {
        StateView { spawns: self.spawns.push(spawn), ..self }
    }
}

impl View for DungeonLayout {
    type V = LayoutView;

    open spec fn view(&self) -> LayoutView {
        LayoutView { rooms: self.rooms@, corridors: self.corridors@ }
    }
}

impl Clone for DungeonLayout {
    fn clone(&self) -> (copy: DungeonLayout)
        ensures
            copy@ == self@,
    {
        let copy = DungeonLayout { rooms: self.rooms.clone(), corridors: self.corridors.clone() };
        assert(copy.rooms@ =~= self.rooms@);
        assert(copy.corridors@ =~= self.corridors@);
        copy
    }
}

impl DungeonLayout {
    /// A floor plan without rooms and corridors.
    pub fn new() -> (layout: DungeonLayout)
        ensures
            layout@ == LayoutView::empty(),
    {
        DungeonLayout { rooms: Vec::new(), corridors: Vec::new() }
    }

    /// Whether no room and no corridor of the plan collides with `shape`.
    pub fn admits<S: Collision>(&self, shape: &S) -> (free: bool)
        ensures
            free == self@.admits(*shape),
    {
        let mut i: usize = 0;
        while i < self.rooms.len()
            invariant
                i <= self.rooms.len(),
                forall|k: int|
                    0 <= k < i ==> !collide(#[trigger] self.rooms@[k], *shape),
            decreases self.rooms.len() - i,
        {
            if self.rooms[i].collides_with(shape) {
                assert(collide(self@.rooms[i as int], *shape));
                return false;
            }
            i += 1;
        }
        let mut j: usize = 0;
        while j < self.corridors.len()
            invariant
                j <= self.corridors.len(),
                forall|k: int|
                    0 <= k < self.rooms.len() ==> !collide(#[trigger] self.rooms@[k], *shape),
                forall|k: int|
                    0 <= k < j ==> !collide(#[trigger] self.corridors@[k], *shape),
            decreases self.corridors.len() - j,
        {
            if self.corridors[j].collides_with(shape) {
                assert(collide(self@.corridors[j as int], *shape));
                return false;
            }
            j += 1;
        }
        true
    }
}

impl View for DungeonState {
    type V = StateView;

    open spec fn view(&self) -> StateView {
        StateView { layout: self.layout@, spawns: self.spawns@, rng: self.rng }
    }
}

impl View for DungeonStateBuilder {
    type V = StateView;

    closed spec fn view(&self) -> StateView {
        StateView { layout: self.layout@, spawns: self.spawns@, rng: self.rng }
    }
}

impl DungeonState {
    /// A builder that holds an empty floor plan, no spawn points and a random
    /// source of its own.
    pub fn builder() -> (builder: DungeonStateBuilder)
        ensures
            builder@.layout == LayoutView::empty(),
            builder@.spawns == Seq::<Spawn>::empty(),
    {
        DungeonStateBuilder::new(DungeonLayout::new(), Vec::new(), RandomSource::from_entropy())
    }
}

impl DungeonStateBuilder {
    /// A builder that holds the three parts given.
    pub fn new(
        layout: DungeonLayout,
        spawns: Vec<Spawn>,
        rng: RandomSource,
    ) -> (builder: DungeonStateBuilder)
        ensures
            builder@ == (StateView { layout: layout@, spawns: spawns@, rng }),
    {
        DungeonStateBuilder { layout, spawns, rng }
    }

    /// The state made of the parts that the builder holds.
    pub fn build(self) -> (state: DungeonState)
        ensures
            state@ == self@,
    {
        DungeonState { layout: self.layout, spawns: self.spawns, rng: self.rng }
    }

    /// A builder that holds copies of the floor plan and of the spawn points
    /// of `state`, and a handle on the same random source. `state` is left as
    /// it is.
    pub fn from_state(state: &DungeonState) -> (builder: DungeonStateBuilder)
        ensures
            builder@ == state@,
    {
        let spawns = state.spawns.clone();
        assert(spawns@ =~= state.spawns@);
        DungeonStateBuilder::new(state.layout.clone(), spawns, state.rng.share())
    }

    /// The same builder with `layout` for its floor plan.
    pub fn layout(self, layout: DungeonLayout) -> (builder: DungeonStateBuilder)
        ensures
            builder@ == (StateView { layout: layout@, ..self@ }),
    {
        DungeonStateBuilder { layout, spawns: self.spawns, rng: self.rng }
    }

    /// The same builder with `spawns` for its spawn points.
    pub fn spawns(self, spawns: Vec<Spawn>) -> (builder: DungeonStateBuilder)
        ensures
            builder@ == (StateView { spawns: spawns@, ..self@ }),
    {
        DungeonStateBuilder { layout: self.layout, spawns, rng: self.rng }
    }

    /// The same builder with `rng` for its random source.
    pub fn rng(self, rng: RandomSource) -> (builder: DungeonStateBuilder)
        ensures
            builder@ == (StateView { rng, ..self@ }),
    {
        DungeonStateBuilder { layout: self.layout, spawns: self.spawns, rng }
    }

    /// The same builder with `rooms` for the rooms of its floor plan.
    pub fn rooms(self, rooms: Vec<Room>) -> (builder: DungeonStateBuilder)
        ensures
            builder@ == (StateView {
                layout: LayoutView { rooms: rooms@, ..self@.layout },
                ..self@
            }),
    {
        let layout = DungeonLayout { rooms, corridors: self.layout.corridors };
        DungeonStateBuilder { layout, spawns: self.spawns, rng: self.rng }
    }

    /// The same builder with `corridors` for the corridors of its floor plan.
    pub fn corridors(self, corridors: Vec<Corridor>) -> (builder: DungeonStateBuilder)
        ensures
            builder@ == (StateView {
                layout: LayoutView { corridors: corridors@, ..self@.layout },
                ..self@
            }),
    {
        let layout = DungeonLayout { rooms: self.layout.rooms, corridors };
        DungeonStateBuilder { layout, spawns: self.spawns, rng: self.rng }
    }
}

} // verus!
