//! The tile grid that a finished floor plan is drawn into.

use vstd::prelude::*;
use bevy::utils::HashMap;
use crate::dungeon_state::{DungeonLayout, LayoutView};
use crate::room::Orientation::{DOWN, LEFT, RIGHT, UP};
use crate::room::{Corridor, Room};
use crate::vector::{I64Vec2, IVec2};

verus! {

/// What a cell of the grid is made of.
#[derive(Clone, Copy, Debug, PartialEq, Eq, Structural)]
pub enum TileType {
    Void,
    Floor,
    Wall,
}

/// A sparse grid of tiles: the cells that were set, each with its tile. Every
/// other cell is `Void`.
///
/// The cells are kept in a hash map of `bevy::utils`, which the proofs do not
/// look into: what the map holds goes by the name [`tile_map_entries`].
#[verifier::external_body]
pub struct TileMap {
    tile_map: HashMap<bevy::math::IVec2, TileType>,
}

/// The cells that were set in a tile map, each with the tile set last.
pub uninterp spec fn tile_map_entries(map: TileMap) -> Map<IVec2, TileType>;

/// `HashMap::default` of `bevy::utils`: a map without entries.
#[verifier::external_body]
fn empty_tile_map() -> (map: TileMap)
    ensures
        tile_map_entries(map) =~= Map::empty(),
{
    TileMap { tile_map: HashMap::default() }
}

/// `HashMap::get` of `bevy::utils`: the tile entered for the cell, if there
/// is one. The map is keyed by `bevy::math::IVec2`, whose equality and hash go
/// by its two coordinates.
#[verifier::external_body]
fn tile_entry(map: &TileMap, pos: IVec2) -> (tile: Option<TileType>)
    ensures
        tile_map_entries(*map).contains_key(pos) ==> tile == Some(tile_map_entries(*map)[pos]),
        !tile_map_entries(*map).contains_key(pos) ==> tile is None,
{
    map.tile_map.get(&bevy::math::IVec2::new(pos.x, pos.y)).copied()
}

/// `HashMap::insert` of `bevy::utils`: enters the tile for the cell, in place
/// of the tile that was entered for it before, and leaves every other entry
/// as it is.
#[verifier::external_body]
fn enter_tile(map: &mut TileMap, pos: IVec2, tile: TileType)
    ensures
        tile_map_entries(*final(map)) == tile_map_entries(*old(map)).insert(pos, tile),
{
    map.tile_map.insert(bevy::math::IVec2::new(pos.x, pos.y), tile);
}

impl View for TileMap {
    type V = Map<IVec2, TileType>;

    open spec fn view(&self) -> Map<IVec2, TileType> {
        tile_map_entries(*self)
    }
}

impl Default for TileMap {
    fn default() -> (map: TileMap)
        ensures
            map@ == Map::<IVec2, TileType>::empty(),
    {
        empty_tile_map()
    }
}

/// The tile that the entries give to a cell: the tile entered for it, and
/// `Void` where none is entered.
pub open spec fn tile_in(entries: Map<IVec2, TileType>, pos: IVec2) -> TileType {
    if entries.contains_key(pos) {
        entries[pos]
    } else {
        TileType::Void
    }
}

impl TileMap {
    /// The tile of a cell.
    pub open spec fn tile_at(&self, pos: IVec2) -> TileType {
        tile_in(self@, pos)
    }

    /// The tile of a cell: what was set for it last, and `Void` where nothing
    /// was set.
    pub fn get(&self, pos: IVec2) -> (tile: TileType)
        ensures
            tile == self.tile_at(pos),
    {
        let tile_option = tile_entry(self, pos);
        if let Some(tile) = tile_option {
            return tile;
        }
        TileType::Void
    }

    /// Sets the tile of a cell.
    pub fn set(&mut self, pos: IVec2, tile_type: TileType)
        ensures
            final(self)@ == old(self)@.insert(pos, tile_type),
    {
        enter_tile(self, pos, tile_type);
    }

    /// Sets the tile of the cell at `point`, if `point` is a cell of the grid.
    fn set_on_grid(&mut self, point: I64Vec2, tile_type: TileType)
        ensures
            final(self)@ == match point.narrow() {
                Some(pos) => old(self)@.insert(pos, tile_type),
                None => old(self)@,
            },
    {
        if let Some(pos) = point.narrow() {
            self.set(pos, tile_type);
        }
    }
}

/// The tile that drawing `room` sets at a cell: `Wall` on the room's border,
/// `Floor` strictly inside the room, nothing outside it.
pub open spec fn room_tile(room: Room, pos: IVec2) -> Option<TileType> {
    let column = pos.x - room.position.x;
    let row = pos.y - room.position.y;
    if 0 <= column < room.shape.width && 0 <= row < room.shape.height {
        if column == 0 || column == room.shape.width - 1 || row == 0 || row == room.shape.height
            - 1 {
            Some(TileType::Wall)
        } else {
            Some(TileType::Floor)
        }
    } else {
        None
    }
}

/// How many steps along `corridor` the cell lies from the corridor's first
/// cell, and how many cells across the run.
pub open spec fn along_and_across(corridor: Corridor, pos: IVec2) -> (int, int) {
    match corridor.shape.orientation {
        RIGHT => (pos.x - corridor.position.x, pos.y - corridor.position.y),
        LEFT => (corridor.position.x - pos.x, pos.y - corridor.position.y),
        UP => (pos.y - corridor.position.y, pos.x - corridor.position.x),
        DOWN => (corridor.position.y - pos.y, pos.x - corridor.position.x),
    }
}

/// The tile that drawing `corridor` sets at a cell: `Floor` on the cells of
/// the corridor, `Wall` on the cells next to them across the run, nothing
/// elsewhere.
pub open spec fn corridor_tile(corridor: Corridor, pos: IVec2) -> Option<TileType> {
    let (along, across) = along_and_across(corridor, pos);
    if 0 <= along < corridor.shape.length && -1 <= across <= 1 {
        if across == 0 {
            Some(TileType::Floor)
        } else {
            Some(TileType::Wall)
        }
    } else {
        None
    }
}

/// The entries that drawing `room` makes.
pub open spec fn room_tiles(room: Room) -> Map<IVec2, TileType> {
    Map::new(|pos: IVec2| room_tile(room, pos) is Some, |pos: IVec2| room_tile(room, pos)->Some_0)
}

/// The entries that drawing `corridor` makes.
pub open spec fn corridor_tiles(corridor: Corridor) -> Map<IVec2, TileType> {
    Map::new(
        |pos: IVec2| corridor_tile(corridor, pos) is Some,
        |pos: IVec2| corridor_tile(corridor, pos)->Some_0,
    )
}

/// The entries that drawing the rooms one after the other makes: where two
/// rooms set the same cell, the later one's tile stays.
pub open spec fn rooms_tiles(rooms: Seq<Room>) -> Map<IVec2, TileType>
    decreases rooms.len(),
{
    if rooms.len() == 0 {
        Map::empty()
    } else {
        rooms_tiles(rooms.drop_last()).union_prefer_right(room_tiles(rooms.last()))
    }
}

/// The entries that drawing the corridors one after the other makes: where
/// two corridors set the same cell, the later one's tile stays.
pub open spec fn corridors_tiles(corridors: Seq<Corridor>) -> Map<IVec2, TileType>
    decreases corridors.len(),
{
    if corridors.len() == 0 {
        Map::empty()
    } else {
        corridors_tiles(corridors.drop_last()).union_prefer_right(corridor_tiles(corridors.last()))
    }
}

/// The tile grid of a floor plan: the rooms are drawn first, then the
/// corridors, so that where a corridor meets a room's border the corridor's
/// floor stays.
pub open spec fn layout_tiles(layout: LayoutView) -> Map<IVec2, TileType> {
    rooms_tiles(layout.rooms).union_prefer_right(corridors_tiles(layout.corridors))
}

/// The part of [`room_tile`] that is drawn when `rows` rows of the room are
/// done and `columns` cells of the next row.
spec fn room_tile_so_far(room: Room, rows: int, columns: int, pos: IVec2) -> Option<
    TileType,
> {
    let column = pos.x - room.position.x;
    let row = pos.y - room.position.y;
    if row < rows || (row == rows && column < columns) {
        room_tile(room, pos)
    } else {
        None
    }
}

/// The part of [`corridor_tile`] that is drawn when `steps` cells of the
/// corridor are done.
spec fn corridor_tile_so_far(corridor: Corridor, steps: int, pos: IVec2) -> Option<
    TileType,
> {
    if along_and_across(corridor, pos).0 < steps {
        corridor_tile(corridor, pos)
    } else {
        None
    }
}

/// What the entries hold for a cell, if anything.
pub open spec fn entry(entries: Map<IVec2, TileType>, pos: IVec2) -> Option<TileType> {
    if entries.contains_key(pos) {
        Some(entries[pos])
    } else {
        None
    }
}

/// `top` where it is a tile, else `below`.
spec fn laid_over(top: Option<TileType>, below: Option<TileType>) -> Option<TileType> {
    match top {
        Some(tile) => Some(tile),
        None => below,
    }
}

/// Draws `room` into the grid: its border as wall, the cells inside as floor.
/// Cells of the room beyond the grid are left out.
pub fn draw_room(tile_map: &mut TileMap, room: &Room)
    ensures
        final(tile_map)@ == old(tile_map)@.union_prefer_right(room_tiles(*room)),
{
    let ghost before = tile_map@;
    let mut y: u32 = 0;
    while y < room.shape.height
        invariant
            y <= room.shape.height,
            forall|pos: IVec2| #[trigger]
                entry(tile_map@, pos) == laid_over(
                    room_tile_so_far(*room, y as int, 0, pos),
                    entry(before, pos),
                ),
        decreases room.shape.height - y,
    {
        let mut x: u32 = 0;
        while x < room.shape.width
            invariant
                y < room.shape.height,
                x <= room.shape.width,
                forall|pos: IVec2| #[trigger]
                    entry(tile_map@, pos) == laid_over(
                        room_tile_so_far(*room, y as int, x as int, pos),
                        entry(before, pos),
                    ),
            decreases room.shape.width - x,
        {
            let on_border = y == 0 || y == room.shape.height - 1 || x == 0 || x == room.shape.width
                - 1;
            let point = I64Vec2::new(
                x as i64 + room.position.x as i64,
                y as i64 + room.position.y as i64,
            );
            let ghost prior = tile_map@;
            if on_border {
                tile_map.set_on_grid(point, TileType::Wall);
            } else {
                tile_map.set_on_grid(point, TileType::Floor);
            }
            proof {
                assert forall|pos: IVec2| #[trigger]
                    entry(tile_map@, pos) == laid_over(
                        room_tile_so_far(*room, y as int, x + 1, pos),
                        entry(before, pos),
                    ) by {
                    let hit = pos.x - room.position.x == x && pos.y - room.position.y == y;
                    assert(entry(prior, pos) == laid_over(
                        room_tile_so_far(*room, y as int, x as int, pos),
                        entry(before, pos),
                    ));
                    if hit {
                        assert(point.narrow() == Some(pos));
                    } else {
                        assert(point.narrow() != Some(pos));
                    }
                }
            }
            x += 1;
        }
        proof {
            assert forall|pos: IVec2| #[trigger]
                entry(tile_map@, pos) == laid_over(
                    room_tile_so_far(*room, y + 1, 0, pos),
                    entry(before, pos),
                ) by {
                assert(room_tile_so_far(*room, y + 1, 0, pos) == room_tile_so_far(
                    *room,
                    y as int,
                    x as int,
                    pos,
                ));
            }
        }
        y += 1;
    }
    proof {
        let drawn = before.union_prefer_right(room_tiles(*room));
        assert forall|pos: IVec2| entry(tile_map@, pos) == entry(drawn, pos) by {
            assert(entry(tile_map@, pos) == laid_over(
                room_tile_so_far(*room, y as int, 0, pos),
                entry(before, pos),
            ));
            assert(room_tile_so_far(*room, y as int, 0, pos) == room_tile(*room, pos));
        }
        entries_agree(tile_map@, drawn);
    }
}

/// Two sets of entries that hold the same for every cell are the same.
proof fn entries_agree(left: Map<IVec2, TileType>, right: Map<IVec2, TileType>)
    requires
        forall|pos: IVec2| entry(left, pos) == entry(right, pos),
    ensures
        left == right,
{
    assert forall|pos: IVec2| left.contains_key(pos) == right.contains_key(pos) by {
        assert(entry(left, pos) == entry(right, pos));
    }
    assert forall|pos: IVec2| left.contains_key(pos) implies left[pos] == right[pos] by {
        assert(entry(left, pos) == entry(right, pos));
    }
    assert(left =~= right);
}

/// Draws `corridor` into the grid: its cells as floor, the cells next to them
/// on both flanks as wall. Cells beyond the grid are left out.
pub fn draw_corridor(tile_map: &mut TileMap, corridor: &Corridor)
    ensures
        final(tile_map)@ == old(tile_map)@.union_prefer_right(corridor_tiles(*corridor)),
{
    let ghost before = tile_map@;
    let length: u32 = corridor.shape.length;
    let mut i: u32 = 0;
    while i < length
        invariant
            i <= length,
            length == corridor.shape.length,
            forall|pos: IVec2| #[trigger]
                entry(tile_map@, pos) == laid_over(
                    corridor_tile_so_far(*corridor, i as int, pos),
                    entry(before, pos),
                ),
        decreases length - i,
    {
        let floor = corridor.cell_at(i as i64);
        let (one_flank, other_flank) = match corridor.shape.orientation {
            RIGHT => (I64Vec2::new(floor.x, floor.y + 1), I64Vec2::new(floor.x, floor.y - 1)),
            LEFT => (I64Vec2::new(floor.x, floor.y - 1), I64Vec2::new(floor.x, floor.y + 1)),
            UP => (I64Vec2::new(floor.x - 1, floor.y), I64Vec2::new(floor.x + 1, floor.y)),
            DOWN => (I64Vec2::new(floor.x + 1, floor.y), I64Vec2::new(floor.x - 1, floor.y)),
        };
        let ghost prior = tile_map@;
        tile_map.set_on_grid(floor, TileType::Floor);
        let ghost floored = tile_map@;
        tile_map.set_on_grid(one_flank, TileType::Wall);
        let ghost flanked = tile_map@;
        tile_map.set_on_grid(other_flank, TileType::Wall);
        proof {
            assert forall|pos: IVec2| #[trigger]
                entry(tile_map@, pos) == laid_over(
                    corridor_tile_so_far(*corridor, i + 1, pos),
                    entry(before, pos),
                ) by {
                let (along, across) = along_and_across(*corridor, pos);
                assert(entry(prior, pos) == laid_over(
                    corridor_tile_so_far(*corridor, i as int, pos),
                    entry(before, pos),
                ));
                assert((floor.narrow() == Some(pos)) == (along == i && across == 0));
                assert((one_flank.narrow() == Some(pos) || other_flank.narrow() == Some(pos)) == (
                along == i && (across == 1 || across == -1)));
                assert(entry(floored, pos) == if floor.narrow() == Some(pos) {
                    Some(TileType::Floor)
                } else {
                    entry(prior, pos)
                });
                assert(entry(flanked, pos) == if one_flank.narrow() == Some(pos) {
                    Some(TileType::Wall)
                } else {
                    entry(floored, pos)
                });
            }
        }
        i += 1;
    }
    proof {
        let drawn = before.union_prefer_right(corridor_tiles(*corridor));
        assert forall|pos: IVec2| entry(tile_map@, pos) == entry(drawn, pos) by {
            assert(entry(tile_map@, pos) == laid_over(
                corridor_tile_so_far(*corridor, i as int, pos),
                entry(before, pos),
            ));
        }
        entries_agree(tile_map@, drawn);
    }
}

/// The tile grid of a floor plan. The rooms are drawn in their order, then the
/// corridors in theirs; a cell that is drawn more than once keeps the tile
/// drawn last.
pub fn get_tile_map(layout: &DungeonLayout) -> (tile_map: TileMap)
    ensures
        tile_map@ == layout_tiles(layout@),
{
    let mut tile_map = TileMap::default();

    let mut r: usize = 0;
    while r < layout.rooms.len()
        invariant
            r <= layout.rooms.len(),
            tile_map@ == rooms_tiles(layout.rooms@.take(r as int)),
        decreases layout.rooms.len() - r,
    {
        draw_room(&mut tile_map, &layout.rooms[r]);
        proof {
            let drawn = layout.rooms@.take(r + 1);
            assert(drawn.drop_last() == layout.rooms@.take(r as int));
            assert(drawn.last() == layout.rooms@[r as int]);
        }
        r += 1;
    }
    assert(layout.rooms@.take(r as int) == layout.rooms@);

    let mut c: usize = 0;
    while c < layout.corridors.len()
        invariant
            c <= layout.corridors.len(),
            tile_map@ == rooms_tiles(layout.rooms@).union_prefer_right(
                corridors_tiles(layout.corridors@.take(c as int)),
            ),
        decreases layout.corridors.len() - c,
    {
        draw_corridor(&mut tile_map, &layout.corridors[c]);
        proof {
            let drawn = layout.corridors@.take(c + 1);
            assert(drawn.drop_last() == layout.corridors@.take(c as int));
            assert(drawn.last() == layout.corridors@[c as int]);
            assert(tile_map@ =~= rooms_tiles(layout.rooms@).union_prefer_right(
                corridors_tiles(drawn),
            ));
        }
        c += 1;
    }
    assert(layout.corridors@.take(c as int) == layout.corridors@);

    tile_map
}

/// Drawing is a function of the floor plan: two grids drawn from plans that
/// hold the same shapes in the same order give every cell the same tile.
pub proof fn same_plan_same_tiles(
    first_plan: LayoutView,
    first: TileMap,
    second_plan: LayoutView,
    second: TileMap,
)
    requires
        first_plan == second_plan,
        first@ == layout_tiles(first_plan),
        second@ == layout_tiles(second_plan),
    ensures
        first@ == second@,
        forall|pos: IVec2| first.tile_at(pos) == second.tile_at(pos),
{
}

/// The rooms give a cell a tile only where one of them draws the cell.
pub proof fn rooms_leave_undrawn_cell_alone(rooms: Seq<Room>, pos: IVec2)
    requires
        forall|i: int| 0 <= i < rooms.len() ==> room_tile(#[trigger] rooms[i], pos) is None,
    ensures
        !rooms_tiles(rooms).contains_key(pos),
    decreases rooms.len(),
{
    if rooms.len() > 0 {
        assert forall|i: int| 0 <= i < rooms.drop_last().len() implies room_tile(
            #[trigger] rooms.drop_last()[i],
            pos,
        ) is None by {
            assert(rooms.drop_last()[i] == rooms[i]);
        }
        rooms_leave_undrawn_cell_alone(rooms.drop_last(), pos);
        assert(room_tile(rooms[rooms.len() - 1], pos) is None);
    }
}

/// The corridors give a cell a tile only where one of them draws the cell.
pub proof fn corridors_leave_undrawn_cell_alone(corridors: Seq<Corridor>, pos: IVec2)
    requires
        forall|i: int|
            0 <= i < corridors.len() ==> corridor_tile(#[trigger] corridors[i], pos) is None,
    ensures
        !corridors_tiles(corridors).contains_key(pos),
    decreases corridors.len(),
{
    if corridors.len() > 0 {
        assert forall|i: int| 0 <= i < corridors.drop_last().len() implies corridor_tile(
            #[trigger] corridors.drop_last()[i],
            pos,
        ) is None by {
            assert(corridors.drop_last()[i] == corridors[i]);
        }
        corridors_leave_undrawn_cell_alone(corridors.drop_last(), pos);
        assert(corridor_tile(corridors[corridors.len() - 1], pos) is None);
    }
}

/// A cell that no room and no corridor of the plan draws is `Void` in the
/// plan's tile grid.
pub proof fn undrawn_cell_is_void(layout: LayoutView, pos: IVec2)
    requires
        forall|i: int|
            0 <= i < layout.rooms.len() ==> room_tile(#[trigger] layout.rooms[i], pos) is None,
        forall|i: int|
            0 <= i < layout.corridors.len() ==> corridor_tile(
                #[trigger] layout.corridors[i],
                pos,
            ) is None,
    ensures
        !layout_tiles(layout).contains_key(pos),
        tile_in(layout_tiles(layout), pos) == TileType::Void,
{
    rooms_leave_undrawn_cell_alone(layout.rooms, pos);
    corridors_leave_undrawn_cell_alone(layout.corridors, pos);
}

/// A cell that the corridor added last draws has that corridor's tile; a cell
/// that no corridor draws and the room added last draws has that room's tile.
pub proof fn last_drawn_tile_stays(layout: LayoutView, pos: IVec2)
    ensures
        layout.corridors.len() > 0 && corridor_tile(layout.corridors.last(), pos) is Some
            ==> entry(layout_tiles(layout), pos) == corridor_tile(layout.corridors.last(), pos),
        layout.rooms.len() > 0 && room_tile(layout.rooms.last(), pos) is Some && (forall|i: int|
            0 <= i < layout.corridors.len() ==> corridor_tile(
                #[trigger] layout.corridors[i],
                pos,
            ) is None) ==> entry(layout_tiles(layout), pos) == room_tile(layout.rooms.last(), pos),
{
    if layout.rooms.len() > 0 && room_tile(layout.rooms.last(), pos) is Some && (forall|i: int|
        0 <= i < layout.corridors.len() ==> corridor_tile(
            #[trigger] layout.corridors[i],
            pos,
        ) is None) {
        corridors_leave_undrawn_cell_alone(layout.corridors, pos);
    }
}

/// The index of a tile's picture in the tile sheet.
pub fn get_tile_index(tile_type: TileType) -> (index: u32)
    ensures
        index == match tile_type {
            TileType::Floor => 1u32,
            TileType::Wall => 2u32,
            TileType::Void => 0u32,
        },
{
    match tile_type {
        TileType::Floor => 1,
        TileType::Wall => 2,
        TileType::Void => 0,
    }
}

} // verus!
