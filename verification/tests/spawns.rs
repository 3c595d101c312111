use dungeon_generation::door::{add_door, place_door_in_corridor};
use dungeon_generation::dungeon_generator::{DungeonGenerator, Step};
use dungeon_generation::dungeon_state::{DungeonLayout, DungeonState, DungeonStateBuilder};
use dungeon_generation::error::GenerationError;
use dungeon_generation::key::add_key;
use dungeon_generation::random::RandomSource;
use dungeon_generation::room::Orientation::{DOWN, LEFT, RIGHT, UP};
use dungeon_generation::room::{Corridor, IShape, Orientation, Rectangle, Room};
use dungeon_generation::spawn_generation::{
    place_player_spawn, place_spawn_in_room, Spawn, SpawnType,
};
use dungeon_generation::vector::IVec2;

fn state_of(rooms: Vec<Room>, corridors: Vec<Corridor>, seed: u64) -> DungeonState {
    DungeonStateBuilder::new(DungeonLayout { rooms, corridors }, Vec::new(), RandomSource::from_seed(seed))
        .build()
}

fn room(x: i32, y: i32, width: u32, height: u32) -> Room {
    Room { shape: Rectangle { width, height }, position: IVec2::new(x, y) }
}

fn corridor(x: i32, y: i32, orientation: Orientation, length: u32) -> Corridor {
    Corridor { shape: IShape { length, orientation }, position: IVec2::new(x, y) }
}

#[test]
fn key_fails_if_no_room() {
    let builder = DungeonGenerator::new().add_step(Step::AddKey);
    assert_eq!(builder.generate().is_err(), true);
}

#[test]
fn if_at_least_one_room_succeeds() {
    let builder = DungeonGenerator::new().add_step(Step::AddRoom).add_step(Step::AddKey);

    assert_eq!(builder.generate().is_ok(), true);
}

#[test]
fn spawn_generation_fails_if_no_room() {
    let builder = DungeonGenerator::new().add_step(Step::PlacePlayerSpawn);
    assert_eq!(builder.generate().is_err(), true);
}

#[test]
fn if_there_is_a_room_places_spawn_correctly() {
    let builder = DungeonGenerator::new()
        .add_step(Step::AddRoom)
        .add_step(Step::PlacePlayerSpawn);

    let dungeon = builder.generate();

    assert_eq!(dungeon.is_ok(), true);
}

#[test]
fn player_spawn_fails_on_the_empty_plan_with_its_own_failure() {
    let state = state_of(vec![], vec![corridor(0, 0, UP, 5)], 1);
    let error = place_player_spawn(&state).err().unwrap();
    assert_eq!(error, GenerationError::PrerequisiteMissing(SpawnType::Player));
    assert_eq!(error.message(), "Could not place player spawn");
}

#[test]
fn player_spawn_lies_strictly_inside_the_first_room() {
    let first = room(-5, 40, 7, 4);
    let state = state_of(vec![first, room(100, 100, 9, 9)], vec![], 3);
    let mut seen = [[false; 4]; 7];
    for _ in 0..300 {
        let next = place_player_spawn(&state).unwrap();
        assert_eq!(next.spawns.len(), 1);
        assert_eq!(next.spawns[0].spawn_type, SpawnType::Player);
        let x = next.spawns[0].position.x + 5;
        let y = next.spawns[0].position.y - 40;
        assert!(1 <= x && x <= 5);
        assert!(1 <= y && y <= 2);
        seen[x as usize][y as usize] = true;
        assert_eq!(next.layout.rooms, state.layout.rooms);
    }
    for x in 1..=5 {
        for y in 1..=2 {
            assert!(seen[x][y]);
        }
    }
    assert_eq!(state.spawns.len(), 0);
}

#[test]
fn player_spawn_in_the_smallest_room_with_an_inside() {
    let state = state_of(vec![room(2, 3, 3, 3)], vec![], 3);
    for _ in 0..20 {
        let next = place_player_spawn(&state).unwrap();
        assert_eq!(next.spawns, vec![Spawn { position: IVec2::new(3, 4), spawn_type: SpawnType::Player }]);
    }
}

#[test]
fn player_spawn_fails_where_the_first_room_has_no_inside() {
    for first in [room(0, 0, 2, 2), room(0, 0, 2, 9), room(0, 0, 9, 1), room(0, 0, 0, 0)] {
        let state = state_of(vec![first, room(50, 50, 9, 9)], vec![], 1);
        assert_eq!(
            place_player_spawn(&state).err(),
            Some(GenerationError::PrerequisiteMissing(SpawnType::Player))
        );
    }
}

#[test]
fn player_spawn_fails_where_the_first_room_leaves_the_grid() {
    let state = state_of(vec![room(i32::MAX - 3, 0, 6, 6)], vec![], 1);
    assert_eq!(
        place_player_spawn(&state).err(),
        Some(GenerationError::PrerequisiteMissing(SpawnType::Player))
    );
    let fitting = state_of(vec![room(i32::MAX - 5, i32::MAX - 5, 6, 6)], vec![], 1);
    let spawn = place_player_spawn(&fitting).unwrap().spawns[0];
    assert!(spawn.position.x >= i32::MAX - 4 && spawn.position.x <= i32::MAX - 1);
    assert!(spawn.position.y >= i32::MAX - 4 && spawn.position.y <= i32::MAX - 1);
}

#[test]
fn spawn_steps_keep_the_spawn_points_that_are_there() {
    let state = state_of(vec![room(0, 0, 6, 6)], vec![corridor(5, 2, RIGHT, 4)], 8);
    let with_player = place_player_spawn(&state).unwrap();
    let with_key = add_key(&with_player).unwrap();
    let with_door = add_door(&with_key).unwrap();
    assert_eq!(with_door.spawns.len(), 3);
    assert_eq!(with_door.spawns[0], with_player.spawns[0]);
    assert_eq!(with_door.spawns[1], with_key.spawns[1]);
    assert_eq!(with_door.spawns[2].spawn_type, SpawnType::Door);
    assert_eq!(with_door.layout.rooms, state.layout.rooms);
    assert_eq!(with_door.layout.corridors, state.layout.corridors);
}

#[test]
fn key_fails_on_a_plan_without_rooms() {
    let state = state_of(vec![], vec![corridor(0, 0, UP, 5)], 1);
    let error = add_key(&state).err().unwrap();
    assert_eq!(error, GenerationError::PrerequisiteMissing(SpawnType::Key));
    assert_eq!(error.message(), "No room to place key in");
}

#[test]
fn key_in_a_room_at_the_origin_lies_off_the_border() {
    for (width, height, seed) in [(3u32, 3u32, 1u64), (6, 6, 2), (15, 7, 3), (4, 12, 4)] {
        let state = state_of(vec![room(0, 0, width, height)], vec![], seed);
        for _ in 0..100 {
            let next = add_key(&state).unwrap();
            assert_eq!(next.spawns.len(), 1);
            assert_eq!(next.spawns[0].spawn_type, SpawnType::Key);
            let position = next.spawns[0].position;
            assert!(1 <= position.x && position.x <= width as i32 - 2);
            assert!(1 <= position.y && position.y <= height as i32 - 2);
        }
    }
}

#[test]
fn key_is_put_into_any_of_the_rooms() {
    let rooms = vec![room(0, 0, 6, 6), room(100, 0, 6, 6), room(200, 0, 6, 6)];
    let state = state_of(rooms.clone(), vec![], 5);
    let mut seen = [false; 3];
    for _ in 0..200 {
        let position = add_key(&state).unwrap().spawns[0].position;
        let index = (position.x / 100) as usize;
        let home = rooms[index];
        assert!(1 <= position.x - home.position.x && position.x - home.position.x <= 4);
        assert!(1 <= position.y && position.y <= 4);
        seen[index] = true;
    }
    assert_eq!(seen, [true; 3]);
}

#[test]
fn key_fails_where_the_room_picked_has_no_inside() {
    let state = state_of(vec![room(0, 0, 2, 2)], vec![], 5);
    assert_eq!(add_key(&state).err(), Some(GenerationError::PrerequisiteMissing(SpawnType::Key)));
}

#[test]
fn door_fails_on_a_plan_without_corridors() {
    let state = state_of(vec![room(0, 0, 6, 6)], vec![], 1);
    let error = add_door(&state).err().unwrap();
    assert_eq!(error, GenerationError::PrerequisiteMissing(SpawnType::Door));
    assert_eq!(error.message(), "Failed to place door");
}

#[test]
fn door_lies_on_a_cell_of_the_corridor_beyond_its_first() {
    for (orientation, seed) in [(RIGHT, 1u64), (LEFT, 2), (UP, 3), (DOWN, 4)] {
        let state = state_of(vec![], vec![corridor(10, -10, orientation, 5)], seed);
        let mut seen = [false; 5];
        for _ in 0..200 {
            let next = add_door(&state).unwrap();
            assert_eq!(next.spawns[0].spawn_type, SpawnType::Door);
            let dx = next.spawns[0].position.x - 10;
            let dy = next.spawns[0].position.y + 10;
            let steps = match orientation {
                RIGHT => {
                    assert_eq!(dy, 0);
                    dx
                }
                LEFT => {
                    assert_eq!(dy, 0);
                    -dx
                }
                UP => {
                    assert_eq!(dx, 0);
                    dy
                }
                DOWN => {
                    assert_eq!(dx, 0);
                    -dy
                }
            };
            assert!(1 <= steps && steps <= 4);
            seen[steps as usize] = true;
        }
        assert_eq!(seen, [false, true, true, true, true]);
    }
}

#[test]
fn door_fails_where_the_corridor_has_one_cell() {
    let state = state_of(vec![], vec![corridor(0, 0, UP, 1)], 1);
    assert_eq!(add_door(&state).err(), Some(GenerationError::PrerequisiteMissing(SpawnType::Door)));
    let none = state_of(vec![], vec![corridor(0, 0, UP, 0)], 1);
    assert_eq!(add_door(&none).err(), Some(GenerationError::PrerequisiteMissing(SpawnType::Door)));
    let two = state_of(vec![], vec![corridor(0, 0, UP, 2)], 1);
    assert_eq!(add_door(&two).unwrap().spawns[0].position, IVec2::new(0, 1));
}

#[test]
fn door_fails_where_the_corridor_runs_off_the_grid() {
    let state = state_of(vec![], vec![corridor(i32::MIN + 2, 0, LEFT, 5)], 1);
    assert_eq!(add_door(&state).err(), Some(GenerationError::PrerequisiteMissing(SpawnType::Door)));
}

#[test]
fn place_spawn_in_room_by_index_and_offset() {
    let state = state_of(vec![room(0, 0, 6, 6), room(20, 30, 5, 4)], vec![], 1);
    let next = place_spawn_in_room(&state, 1, 3, 2, SpawnType::Key).unwrap();
    assert_eq!(next.spawns, vec![Spawn { position: IVec2::new(23, 32), spawn_type: SpawnType::Key }]);

    for (index, x, y) in [(2usize, 1u32, 1u32), (1, 0, 1), (1, 4, 1), (1, 1, 0), (1, 1, 3), (1, 9, 9)] {
        assert_eq!(
            place_spawn_in_room(&state, index, x, y, SpawnType::Player).err(),
            Some(GenerationError::PrerequisiteMissing(SpawnType::Player))
        );
    }
}

#[test]
fn place_door_in_corridor_by_index_and_steps() {
    let state = state_of(vec![], vec![corridor(0, 0, UP, 3), corridor(5, 5, LEFT, 4)], 1);
    let next = place_door_in_corridor(&state, 1, 3).unwrap();
    assert_eq!(next.spawns, vec![Spawn { position: IVec2::new(2, 5), spawn_type: SpawnType::Door }]);
    let down = state_of(vec![], vec![corridor(0, 0, DOWN, 3)], 1);
    assert_eq!(place_door_in_corridor(&down, 0, 1).unwrap().spawns[0].position, IVec2::new(0, -1));

    for (index, steps) in [(2usize, 1u32), (1, 0), (1, 4), (0, 3)] {
        assert_eq!(
            place_door_in_corridor(&state, index, steps).err(),
            Some(GenerationError::PrerequisiteMissing(SpawnType::Door))
        );
    }
}
