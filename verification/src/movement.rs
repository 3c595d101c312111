//! What stands in the way of a step on the tile grid.

use vstd::prelude::*;
use crate::inventory::Inventory;
use crate::map::{TileMap, TileType};
use crate::vector::{I64Vec2, IVec2};

verus! {

/// The direction of a step, or no step at all.
#[derive(Clone, Copy, Debug, PartialEq, Eq, Structural)]
pub enum Direction {
    Idle,
    Up,
    Down,
    Left,
    Right,
}

/// What a step meets in a thing that can be walked into.
#[derive(Clone, Copy, Debug, PartialEq, Eq, Structural)]
pub enum Contact {
    /// The thing is not on the cell that the step leads to.
    Clear,
    /// The thing is on that cell and stays there.
    Blocked,
    /// The thing is on that cell and was opened with an item of the inventory.
    Opened,
}

/// The point that a step in `direction` from `pos` leads to, with wide
/// coordinates: a step from the rim of the grid leads off the grid.
pub open spec fn spec_target(pos: IVec2, direction: Direction) -> I64Vec2 {
    match direction {
        Direction::Up => I64Vec2 { x: pos.x as i64, y: (pos.y + 1) as i64 },
        Direction::Down => I64Vec2 { x: pos.x as i64, y: (pos.y - 1) as i64 },
        Direction::Left => I64Vec2 { x: (pos.x - 1) as i64, y: pos.y as i64 },
        Direction::Right => I64Vec2 { x: (pos.x + 1) as i64, y: pos.y as i64 },
        Direction::Idle => pos.widen(),
    }
}

/// The point that a step in `direction` from `pos` leads to.
#[verifier::when_used_as_spec(spec_target)]
pub fn target(pos: IVec2, direction: Direction) -> (point: I64Vec2)
    ensures
        point == spec_target(pos, direction),
{
    let x: i64 = pos.x as i64;
    let y: i64 = pos.y as i64;
    match direction {
        Direction::Up => I64Vec2::new(x, y + 1),
        Direction::Down => I64Vec2::new(x, y - 1),
        Direction::Left => I64Vec2::new(x - 1, y),
        Direction::Right => I64Vec2::new(x + 1, y),
        Direction::Idle => I64Vec2::new(x, y),
    }
}

/// Whether a step in `direction` from `pos` leads into a wall. A step off the
/// grid leads into no wall.
pub fn check_if_collides_with_walls(
    pos: IVec2,
    direction: &Direction,
    map: &TileMap,
) -> (blocked: bool)
    ensures
        blocked == match target(pos, *direction).narrow() {
            Some(cell) => map.tile_at(cell) == TileType::Wall,
            None => false,
        },
{
    match target(pos, *direction).narrow() {
        Some(cell) => {
            let tile_type = map.get(cell);
            tile_type == TileType::Wall
        },
        None => false,
    }
}

/// What a step in `direction` from `pos` meets in a thing on the cell
/// `thing`: nothing where the step leads elsewhere. Else a thing that is
/// `opened_by` an item opens where the inventory holds such an item, and any
/// other thing blocks.
pub open spec fn contact_with(
    pos: IVec2,
    direction: Direction,
    thing: IVec2,
    opened_by: Option<&str>,
    inventory: Inventory,
) -> Contact {
    if target(pos, direction) != thing.widen() {
        Contact::Clear
    } else if opened_by matches Some(item) && inventory.count_of(item@) > 0 {
        Contact::Opened
    } else {
        Contact::Blocked
    }
}

/// What a step in `direction` from `pos` meets in a thing on the cell
/// `thing`. Where the thing opens, one of the items that open it is taken out
/// of the inventory; else the inventory stays as it is.
pub fn meet_collidable(
    pos: IVec2,
    direction: &Direction,
    thing: IVec2,
    opened_by: Option<&str>,
    inventory: &mut Inventory,
) -> (contact: Contact)
    ensures
        contact == contact_with(pos, *direction, thing, opened_by, *old(inventory)),
        contact == Contact::Opened ==> final(inventory)@ == old(inventory)@.insert(
            opened_by->Some_0@,
            (old(inventory).count_of(opened_by->Some_0@) - 1) as u32,
        ),
        contact != Contact::Opened ==> final(inventory)@ == old(inventory)@,
{
    let point = target(pos, *direction);
    if point.x != thing.x as i64 || point.y != thing.y as i64 {
        return Contact::Clear;
    }
    if let Some(item) = opened_by {
        let item_count: u32 = inventory.get_item_count(item);
        if item_count > 0 {
            inventory.remove_item(item);
            return Contact::Opened;
        }
    }
    Contact::Blocked
}

} // verus!
