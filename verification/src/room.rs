//! Shapes that can be placed on the dungeon grid, the axis-aligned box that
//! stands for each of them, and the overlap test between two boxes.

use vstd::prelude::*;
use vstd::math::{max, min};
use crate::room::Orientation::{DOWN, LEFT, RIGHT, UP};
use crate::vector::{I64Vec2, IVec2};

verus! {

/// The size of a rectangle of grid cells.
#[derive(Clone, Copy, Debug, PartialEq, Eq, Structural)]
pub struct Rectangle {
    pub width: u32,
    pub height: u32,
}

/// An axis-aligned box of grid cells: `position` is its lower-left cell, and it
/// spans `shape.width` columns and `shape.height` rows from there.
#[derive(Clone, Copy, Debug, PartialEq, Eq, Structural)]
pub struct CollisionBox {
    pub shape: Rectangle,
    pub position: I64Vec2,
}

/// A rectangular chamber; `position` is its lower-left cell.
#[derive(Clone, Copy, Debug, PartialEq, Eq, Structural)]
pub struct Room {
    pub shape: Rectangle,
    pub position: IVec2,
}

/// One of the four directions of the grid.
#[derive(Clone, Copy, Debug, PartialEq, Eq, Structural)]
pub enum Orientation {
    UP,
    DOWN,
    LEFT,
    RIGHT,
}

/// A closed interval of coordinates, `start` and `end` both included.
#[derive(Clone, Copy, Debug, PartialEq, Eq, Structural)]
pub struct Line {
    pub start: i64,
    pub end: i64,
}

/// A straight run of `length` cells.
#[derive(Clone, Copy, Debug, PartialEq, Eq, Structural)]
pub struct IShape {
    pub orientation: Orientation,
    pub length: u32,
}

/// A straight, one cell wide connector: `shape.length` cells, the first at
/// `position`, each next one a step further along `shape.orientation`.
#[derive(Clone, Copy, Debug, PartialEq, Eq, Structural)]
pub struct Corridor {
    pub shape: IShape,
    pub position: IVec2,
}

/// Two closed intervals `[a0, a1]` and `[b0, b1]` intersect when the start of
/// either lies within the other, or when one of them covers the other.
/// Intervals that only touch intersect.
pub open spec fn intervals_intersect(a0: int, a1: int, b0: int, b1: int) -> bool {
    ||| b0 <= a0 <= b1
    ||| a0 <= b0 <= a1
    ||| (a0 <= b0 && b1 <= a1)
    ||| (b0 <= a0 && a1 <= b1)
}

impl Line {
    /// The interval from `start` to `end`, both included.
    pub fn new(start: i64, end: i64) -> (line: Line)
        ensures
            line == (Line { start, end }),
    {
        Line { start, end }
    }

    /// Whether this interval and `other` intersect.
    pub open spec fn intersects(self, other: Line) -> bool {
        intervals_intersect(
            self.start as int,
            self.end as int,
            other.start as int,
            other.end as int,
        )
    }
}

/// Whether two intervals intersect: whether the start of either lies within
/// the other, or one of them covers the other.
pub fn lines_intersect(lhs: &Line, rhs: &Line) -> (hit: bool)
    ensures
        hit == lhs.intersects(*rhs),
{
    let lhs_starts_in_rhs = rhs.start <= lhs.start && lhs.start <= rhs.end;
    let rhs_starts_in_lhs = lhs.start <= rhs.start && rhs.start <= lhs.end;
    let lhs_covers_rhs = lhs.start <= rhs.start && rhs.end <= lhs.end;
    let rhs_covers_lhs = rhs.start <= lhs.start && lhs.end <= rhs.end;

    lhs_starts_in_rhs || rhs_starts_in_lhs || lhs_covers_rhs || rhs_covers_lhs
}

impl Orientation {
    /// The horizontal part of the unit step in this direction.
    pub open spec fn dx(self) -> int {
        match self {
            RIGHT => 1,
            LEFT => -1,
            UP => 0,
            DOWN => 0,
        }
    }

    /// The vertical part of the unit step in this direction.
    pub open spec fn dy(self) -> int {
        match self {
            RIGHT => 0,
            LEFT => 0,
            UP => 1,
            DOWN => -1,
        }
    }

    /// Whether a step in this direction changes the row.
    pub open spec fn is_vertical(self) -> bool {
        self == UP || self == DOWN
    }

    /// The unit step in this direction.
    pub open spec fn unit(self) -> IVec2 {
        IVec2 { x: self.dx() as i32, y: self.dy() as i32 }
    }
}

impl From<Orientation> for IVec2 {
    /// The unit step in the direction: one cell to the right, to the left, up
    /// or down.
    fn from(value: Orientation) -> (step: IVec2) {
        match value {
            RIGHT => IVec2 { x: 1, y: 0 },
            LEFT => IVec2 { x: -1, y: 0 },
            UP => IVec2 { x: 0, y: 1 },
            DOWN => IVec2 { x: 0, y: -1 },
        }
    }
}

impl vstd::std_specs::convert::FromSpecImpl<Orientation> for IVec2 {
    open spec fn obeys_from_spec() -> bool {
        true
    }

    open spec fn from_spec(value: Orientation) -> IVec2 {
        value.unit()
    }
}

impl CollisionBox {
    /// The leftmost column of the box.
    pub open spec fn left(self) -> int {
        self.position.x as int
    }

    /// The rightmost column of the box; one less than `left` when the box has no width.
    pub open spec fn right(self) -> int {
        self.position.x + self.shape.width - 1
    }

    /// The lowest row of the box.
    pub open spec fn bottom(self) -> int {
        self.position.y as int
    }

    /// The highest row of the box; one less than `bottom` when the box has no height.
    pub open spec fn top(self) -> int {
        self.position.y + self.shape.height - 1
    }

    /// Whether the far ends of the box are coordinates that `i64` holds.
    pub open spec fn is_representable(self) -> bool {
        &&& i64::MIN <= self.right() <= i64::MAX
        &&& i64::MIN <= self.top() <= i64::MAX
    }

    /// Two boxes collide when their columns intersect and their rows intersect.
    pub open spec fn collides(self, other: CollisionBox) -> bool {
        &&& intervals_intersect(self.left(), self.right(), other.left(), other.right())
        &&& intervals_intersect(self.bottom(), self.top(), other.bottom(), other.top())
    }

    /// The columns that the box spans.
    pub fn x_line(&self) -> (line: Line)
        requires
            self.is_representable(),
        ensures
            line.start == self.left(),
            line.end == self.right(),
    {
        Line::new(self.position.x, self.position.x + (self.shape.width as i64 - 1))
    }

    /// The rows that the box spans.
    pub fn y_line(&self) -> (line: Line)
        requires
            self.is_representable(),
        ensures
            line.start == self.bottom(),
            line.end == self.top(),
    {
        Line::new(self.position.y, self.position.y + (self.shape.height as i64 - 1))
    }
}

/// Whether two boxes collide, by the columns and the rows that each spans.
pub fn boxes_collide(left_box: &CollisionBox, right_box: &CollisionBox) -> (hit: bool)
    requires
        left_box.is_representable(),
        right_box.is_representable(),
    ensures
        hit == left_box.collides(*right_box),
{
    let left_x_line = left_box.x_line();
    let left_y_line = left_box.y_line();
    let right_x_line = right_box.x_line();
    let right_y_line = right_box.y_line();

    let x_line_intersect = lines_intersect(&left_x_line, &right_x_line);
    let y_line_intersect = lines_intersect(&left_y_line, &right_y_line);

    x_line_intersect && y_line_intersect
}

/// A shape that takes part in overlap tests through the box that stands for it.
pub trait Collision {
    /// The box that stands for the shape.
    spec fn collision_box(&self) -> CollisionBox;

    /// The box that stands for the shape. Its far ends are coordinates that
    /// `i64` holds, so that the overlap test can compute them.
    fn to_collision_box(&self) -> (collision_box: CollisionBox)
        ensures
            collision_box == self.collision_box(),
            collision_box.is_representable(),
    ;
}

/// Whether two shapes collide: whether the boxes that stand for them do.
pub open spec fn collide<A: Collision, B: Collision>(lhs: A, rhs: B) -> bool {
    lhs.collision_box().collides(rhs.collision_box())
}

/// Whether two shapes collide.
pub fn shapes_collide<A: Collision, B: Collision>(lhs: &A, rhs: &B) -> (hit: bool)
    ensures
        hit == collide(*lhs, *rhs),
{
    let left_box = lhs.to_collision_box();
    let right_box = rhs.to_collision_box();
    boxes_collide(&left_box, &right_box)
}

impl Room {
    /// Whether the room's box and that of `rhs` collide.
    pub fn collides_with<R: Collision>(&self, rhs: &R) -> (hit: bool)
        ensures
            hit == collide(*self, *rhs),
    {
        shapes_collide(self, rhs)
    }
}

impl Collision for Room {
    /// A room's box is the room itself.
    open spec fn collision_box(&self) -> CollisionBox {
        CollisionBox { shape: self.shape, position: self.position.widen() }
    }

    fn to_collision_box(&self) -> (collision_box: CollisionBox) {
        CollisionBox { shape: self.shape, position: self.position.widen() }
    }
}

impl Corridor {
    /// Whether the corridor's box and that of `rhs` collide.
    pub fn collides_with<R: Collision>(&self, rhs: &R) -> (hit: bool)
        ensures
            hit == collide(*self, *rhs),
    {
        shapes_collide(self, rhs)
    }

    /// The cell `steps` steps along the corridor from its first cell.
    pub open spec fn cell(self, steps: int) -> (int, int) {
        match self.shape.orientation {
            RIGHT => (self.position.x + steps, self.position.y as int),
            LEFT => (self.position.x - steps, self.position.y as int),
            UP => (self.position.x as int, self.position.y + steps),
            DOWN => (self.position.x as int, self.position.y - steps),
        }
    }

    /// The cell `side` cells across the run from `cell(steps)`.
    pub open spec fn beside(self, steps: int, side: int) -> (int, int) {
        if self.shape.orientation.is_vertical() {
            (self.cell(steps).0 + side, self.cell(steps).1)
        } else {
            (self.cell(steps).0, self.cell(steps).1 + side)
        }
    }
}

impl Collision for Corridor {
    /// A corridor's box leaves out the corridor's two end cells, where it
    /// meets the rooms it joins, and takes in the walls on both flanks: it is
    /// the bounding box of the cells strictly between the ends, widened by
    /// one cell to either side of the run. A corridor of one or two cells has
    /// no cell between its ends, and its box is an empty box at its position.
    open spec fn collision_box(&self) -> CollisionBox {
        if self.shape.length <= 2 {
            CollisionBox {
                shape: Rectangle { width: 0, height: 0 },
                position: self.position.widen(),
            }
        } else {
            let first = self.cell(1);
            let last = self.cell(self.shape.length - 2);
            let flank_x: int = if self.shape.orientation.is_vertical() { 1 } else { 0 };
            let flank_y: int = if self.shape.orientation.is_vertical() { 0 } else { 1 };
            let left = min(first.0, last.0) - flank_x;
            let right = max(first.0, last.0) + flank_x;
            let bottom = min(first.1, last.1) - flank_y;
            let top = max(first.1, last.1) + flank_y;
            CollisionBox {
                shape: Rectangle {
                    width: (right - left + 1) as u32,
                    height: (top - bottom + 1) as u32,
                },
                position: I64Vec2 { x: left as i64, y: bottom as i64 },
            }
        }
    }

    fn to_collision_box(&self) -> (collision_box: CollisionBox) {
        if self.shape.length <= 2 {
            return CollisionBox {
                shape: Rectangle { width: 0, height: 0 },
                position: self.position.widen(),
            };
        }
        let inner: u32 = self.shape.length - 2;
        let run: i64 = inner as i64;
        let x: i64 = self.position.x as i64;
        let y: i64 = self.position.y as i64;

        match self.shape.orientation {
            RIGHT => CollisionBox {
                shape: Rectangle { width: inner, height: 3 },
                position: I64Vec2::new(x + 1, y - 1),
            },
            LEFT => CollisionBox {
                shape: Rectangle { width: inner, height: 3 },
                position: I64Vec2::new(x - run, y - 1),
            },
            UP => CollisionBox {
                shape: Rectangle { width: 3, height: inner },
                position: I64Vec2::new(x - 1, y + 1),
            },
            DOWN => CollisionBox {
                shape: Rectangle { width: 3, height: inner },
                position: I64Vec2::new(x - 1, y - run),
            },
        }
    }
}

impl Room {
    /// Whether the room's far corner is still a cell of the grid, and with it
    /// every cell of the room.
    pub open spec fn fits_grid(self) -> bool {
        &&& self.position.x + self.shape.width - 1 <= i32::MAX
        &&& self.position.y + self.shape.height - 1 <= i32::MAX
    }

    /// Whether the room has a cell off its border.
    pub open spec fn has_interior(self) -> bool {
        self.shape.width >= 3 && self.shape.height >= 3
    }

    /// Whether something can be put into the room: it has a cell off its
    /// border, and all its cells are cells of the grid.
    pub open spec fn is_usable(&self) -> bool {
        self.has_interior() && self.fits_grid()
    }

    /// Whether `cell` lies strictly inside the room: in it and off its border.
    pub open spec fn holds_inside(self, cell: IVec2) -> bool {
        &&& 1 <= cell.x - self.position.x <= self.shape.width - 2
        &&& 1 <= cell.y - self.position.y <= self.shape.height - 2
    }

    /// Whether `cell` lies on the edge of the room that faces `side`, and is
    /// no corner of the room.
    pub open spec fn holds_on_edge(self, side: Orientation, cell: (int, int)) -> bool {
        match side {
            UP => cell.1 == self.position.y + self.shape.height - 1 && 1 <= cell.0
                - self.position.x <= self.shape.width - 2,
            DOWN => cell.1 == self.position.y && 1 <= cell.0 - self.position.x
                <= self.shape.width - 2,
            RIGHT => cell.0 == self.position.x + self.shape.width - 1 && 1 <= cell.1
                - self.position.y <= self.shape.height - 2,
            LEFT => cell.0 == self.position.x && 1 <= cell.1 - self.position.y
                <= self.shape.height - 2,
        }
    }

    /// Whether `corridor` ends in the room's border: its last cell is a cell
    /// of the edge that the corridor runs into, and no corner.
    pub open spec fn is_entered_by(self, corridor: Corridor) -> bool {
        self.holds_on_edge(corridor.shape.orientation.reversed(), corridor.end())
    }

    /// Whether `corridor` starts in the room's border: its first cell is a
    /// cell of the edge that the corridor leaves through, and no corner.
    pub open spec fn is_left_by(self, corridor: Corridor) -> bool {
        self.holds_on_edge(
            corridor.shape.orientation,
            (corridor.position.x as int, corridor.position.y as int),
        )
    }

    /// Whether something can be put into the room.
    #[verifier::when_used_as_spec(is_usable)]
    pub fn usable(&self) -> (usable: bool)
        ensures
            usable == self.is_usable(),
    {
        let far_x: i64 = self.position.x as i64 + self.shape.width as i64 - 1;
        let far_y: i64 = self.position.y as i64 + self.shape.height as i64 - 1;
        let has_interior = self.shape.width >= 3 && self.shape.height >= 3;
        has_interior && far_x <= i32::MAX as i64 && far_y <= i32::MAX as i64
    }

    /// The cell `x` columns and `y` rows from the room's lower-left cell, if
    /// that is a cell strictly inside the room.
    pub open spec fn spec_interior_cell(&self, x: u32, y: u32) -> Option<IVec2> {
        let cell = I64Vec2 { x: (self.position.x + x) as i64, y: (self.position.y + y) as i64 };
        if 1 <= x <= self.shape.width - 2 && 1 <= y <= self.shape.height - 2 {
            cell.narrow()
        } else {
            None
        }
    }

    /// The cell `x` columns and `y` rows from the room's lower-left cell, if
    /// that is a cell strictly inside the room and a cell of the grid.
    #[verifier::when_used_as_spec(spec_interior_cell)]
    pub fn interior_cell(&self, x: u32, y: u32) -> (cell: Option<IVec2>)
        ensures
            cell == self.spec_interior_cell(x, y),
            cell matches Some(c) ==> self.holds_inside(c),
            self.is_usable() && 1 <= x <= self.shape.width - 2 && 1 <= y <= self.shape.height - 2
                ==> cell is Some,
    {
        if 1 <= x && x as u64 + 2 <= self.shape.width as u64 && 1 <= y && y as u64 + 2
            <= self.shape.height as u64 {
            let cell = I64Vec2::new(
                self.position.x as i64 + x as i64,
                self.position.y as i64 + y as i64,
            );
            cell.narrow()
        } else {
            None
        }
    }

    /// The cell `slide` cells along the edge of the room that faces `side`,
    /// counted from the edge's lower or left end, if that is a cell of the
    /// edge and no corner.
    pub open spec fn spec_edge_cell(&self, side: Orientation, slide: u32) -> Option<IVec2> {
        let x = self.position.x as int;
        let y = self.position.y as int;
        let cell = match side {
            UP => (x + slide, y + self.shape.height - 1),
            DOWN => (x + slide, y),
            RIGHT => (x + self.shape.width - 1, y + slide),
            LEFT => (x, y + slide),
        };
        if self.holds_on_edge(side, cell) && self.shape.width >= 1 && self.shape.height >= 1 {
            (I64Vec2 { x: cell.0 as i64, y: cell.1 as i64 }).narrow()
        } else {
            None
        }
    }

    /// The cell `slide` cells along the edge of the room that faces `side`,
    /// if that is a cell of the edge, no corner, and a cell of the grid.
    #[verifier::when_used_as_spec(spec_edge_cell)]
    pub fn edge_cell(&self, side: Orientation, slide: u32) -> (cell: Option<IVec2>)
        ensures
            cell == self.spec_edge_cell(side, slide),
            cell matches Some(c) ==> self.holds_on_edge(side, (c.x as int, c.y as int)),
            self.is_usable() && 1 <= slide <= self.edge_length(side) - 2 ==> cell is Some,
    {
        if self.shape.width < 1 || self.shape.height < 1 {
            return None;
        }
        let x: i64 = self.position.x as i64;
        let y: i64 = self.position.y as i64;
        let along: i64 = slide as i64;
        let width: i64 = self.shape.width as i64;
        let height: i64 = self.shape.height as i64;
        match side {
            UP => if 1 <= along && along <= width - 2 {
                I64Vec2::new(x + along, y + height - 1).narrow()
            } else {
                None
            },
            DOWN => if 1 <= along && along <= width - 2 {
                I64Vec2::new(x + along, y).narrow()
            } else {
                None
            },
            RIGHT => if 1 <= along && along <= height - 2 {
                I64Vec2::new(x + width - 1, y + along).narrow()
            } else {
                None
            },
            LEFT => if 1 <= along && along <= height - 2 {
                I64Vec2::new(x, y + along).narrow()
            } else {
                None
            },
        }
    }

    /// How many cells the edge of the room that faces `side` has.
    pub open spec fn spec_edge_length(&self, side: Orientation) -> u32 {
        if side.is_vertical() {
            self.shape.width
        } else {
            self.shape.height
        }
    }

    /// How many cells the edge of the room that faces `side` has.
    #[verifier::when_used_as_spec(spec_edge_length)]
    pub fn edge_length(&self, side: Orientation) -> (cells: u32)
        ensures
            cells == self.spec_edge_length(side),
    {
        match side {
            UP => self.shape.width,
            DOWN => self.shape.width,
            LEFT => self.shape.height,
            RIGHT => self.shape.height,
        }
    }

    /// The room of size `shape` that `corridor` enters `slide` cells along the
    /// edge it runs into, if the room's lower-left cell is a cell of the grid.
    pub open spec fn spec_at_end_of(corridor: &Corridor, shape: Rectangle, slide: u32) -> Option<
        Room,
    > {
        let end = corridor.end();
        let corner = match corridor.shape.orientation {
            DOWN => (end.0 - slide, end.1 - (shape.height - 1)),
            UP => (end.0 - slide, end.1),
            LEFT => (end.0 - (shape.width - 1), end.1 - slide),
            RIGHT => (end.0, end.1 - slide),
        };
        match (I64Vec2 { x: corner.0 as i64, y: corner.1 as i64 }).narrow() {
            Some(position) => Some(Room { shape, position }),
            None => None,
        }
    }

    /// The room of size `shape` that `corridor` enters `slide` cells along the
    /// edge it runs into, if the room's lower-left cell is a cell of the grid.
    #[verifier::when_used_as_spec(spec_at_end_of)]
    pub fn at_end_of(corridor: &Corridor, shape: Rectangle, slide: u32) -> (room: Option<Room>)
        ensures
            room == Room::spec_at_end_of(corridor, shape, slide),
            room matches Some(r) ==> (r.is_entered_by(*corridor) <==> 1 <= slide
                <= r.edge_length(corridor.shape.orientation) - 2),
    {
        let end = corridor.end_cell();
        let along: i64 = slide as i64;
        let width: i64 = shape.width as i64;
        let height: i64 = shape.height as i64;
        let corner = match corridor.shape.orientation {
            DOWN => I64Vec2::new(end.x - along, end.y - (height - 1)),
            UP => I64Vec2::new(end.x - along, end.y),
            LEFT => I64Vec2::new(end.x - (width - 1), end.y - along),
            RIGHT => I64Vec2::new(end.x, end.y - along),
        };
        match corner.narrow() {
            Some(position) => Some(Room { shape, position }),
            None => None,
        }
    }
}

impl Orientation {
    /// The direction opposite to this one.
    pub open spec fn reversed(self) -> Orientation {
        match self {
            UP => DOWN,
            DOWN => UP,
            LEFT => RIGHT,
            RIGHT => LEFT,
        }
    }
}

impl Corridor {
    /// The corridor's last cell. A corridor without cells ends one step
    /// before its position.
    pub open spec fn end(self) -> (int, int) {
        self.cell(self.shape.length - 1)
    }

    /// Whether the corridor has a cell and all its cells are cells of the grid.
    pub open spec fn fits_grid(self) -> bool {
        &&& self.shape.length >= 1
        &&& i32::MIN <= self.end().0 <= i32::MAX
        &&& i32::MIN <= self.end().1 <= i32::MAX
    }

    /// Whether the corridor has a cell beyond its first, and all its cells
    /// are cells of the grid.
    pub open spec fn is_usable(&self) -> bool {
        self.shape.length >= 2 && self.fits_grid()
    }

    /// Whether a door can be put into the corridor.
    #[verifier::when_used_as_spec(is_usable)]
    pub fn usable(&self) -> (usable: bool)
        ensures
            usable == self.is_usable(),
    {
        self.shape.length >= 2 && self.end_cell().narrow().is_some()
    }

    /// The cell `steps` steps along the corridor from its first cell, with
    /// wide coordinates.
    pub fn cell_at(&self, steps: i64) -> (cell: I64Vec2)
        requires
            -0x1_0000_0000 <= steps <= 0x1_0000_0000,
        ensures
            (cell.x as int, cell.y as int) == self.cell(steps as int),
    {
        let x: i64 = self.position.x as i64;
        let y: i64 = self.position.y as i64;
        match self.shape.orientation {
            RIGHT => I64Vec2::new(x + steps, y),
            LEFT => I64Vec2::new(x - steps, y),
            UP => I64Vec2::new(x, y + steps),
            DOWN => I64Vec2::new(x, y - steps),
        }
    }

    /// The corridor's last cell, with wide coordinates.
    pub fn end_cell(&self) -> (cell: I64Vec2)
        ensures
            (cell.x as int, cell.y as int) == self.end(),
    {
        self.cell_at(self.shape.length as i64 - 1)
    }

    /// The grid cell `steps` steps along the corridor, if the corridor has
    /// that many cells beyond its first and the cell is on the grid.
    pub open spec fn spec_grid_cell(&self, steps: u32) -> Option<IVec2> {
        if steps < self.shape.length {
            let cell = self.cell(steps as int);
            (I64Vec2 { x: cell.0 as i64, y: cell.1 as i64 }).narrow()
        } else {
            None
        }
    }

    /// The grid cell `steps` steps along the corridor, if the corridor has
    /// that many cells beyond its first and the cell is on the grid.
    #[verifier::when_used_as_spec(spec_grid_cell)]
    pub fn grid_cell(&self, steps: u32) -> (cell: Option<IVec2>)
        ensures
            cell == self.spec_grid_cell(steps),
            self.fits_grid() && steps < self.shape.length ==> cell is Some,
    {
        if steps < self.shape.length {
            self.cell_at(steps as i64).narrow()
        } else {
            None
        }
    }
}

/// The overlap test does not depend on the order of the two intervals.
pub proof fn intervals_intersect_is_symmetric(a0: int, a1: int, b0: int, b1: int)
    ensures
        intervals_intersect(a0, a1, b0, b1) == intervals_intersect(b0, b1, a0, a1),
{
}

/// The overlap test on two intervals that each hold a coordinate (`start <= end`)
/// is the usual one: neither ends before the other starts.
pub proof fn proper_intervals_intersect(a0: int, a1: int, b0: int, b1: int)
    requires
        a0 <= a1,
        b0 <= b1,
    ensures
        intervals_intersect(a0, a1, b0, b1) == (a0 <= b1 && b0 <= a1),
{
}

/// Whether two shapes collide does not depend on which of them is asked.
pub proof fn collision_is_symmetric<A: Collision, B: Collision>(a: A, b: B)
    ensures
        collide(a, b) == collide(b, a),
{
}

/// Every shape collides with itself, a shape with an empty box too.
pub proof fn shape_collides_with_itself<A: Collision>(a: A)
    ensures
        collide(a, a),
{
}

/// A corridor of three cells or more does not collide with the room that it
/// leaves: its box starts one cell beyond the room's border.
pub proof fn corridor_clears_the_room_it_leaves(room: Room, corridor: Corridor)
    requires
        room.shape.width >= 1,
        room.shape.height >= 1,
        corridor.shape.length >= 3,
        room.is_left_by(corridor),
    ensures
        !collide(room, corridor),
        !collide(corridor, room),
{
}

/// A corridor of three cells or more does not collide with the room that it
/// ends in: its box stops one cell short of the room's border.
pub proof fn corridor_clears_the_room_it_enters(room: Room, corridor: Corridor)
    requires
        room.shape.width >= 1,
        room.shape.height >= 1,
        corridor.shape.length >= 3,
        room.is_entered_by(corridor),
    ensures
        !collide(room, corridor),
        !collide(corridor, room),
{
}

/// A cell lies in the box of a corridor of three cells or more exactly when it
/// is one of the cells strictly between the corridor's ends, or next to one of
/// them across the run.
pub proof fn corridor_box_holds_inner_cells_and_flanks(corridor: Corridor, x: int, y: int)
    requires
        corridor.shape.length >= 3,
    ensures
        ({
            let b = corridor.collision_box();
            b.left() <= x <= b.right() && b.bottom() <= y <= b.top()
        }) <==> (exists|steps: int, side: int|
            {
                &&& 1 <= steps <= corridor.shape.length - 2
                &&& -1 <= side <= 1
                &&& #[trigger] corridor.beside(steps, side) == (x, y)
            }),
{
    let b = corridor.collision_box();
    if b.left() <= x <= b.right() && b.bottom() <= y <= b.top() {
        let (steps, side) = match corridor.shape.orientation {
            RIGHT => (x - corridor.position.x, y - corridor.position.y),
            LEFT => (corridor.position.x - x, y - corridor.position.y),
            UP => (y - corridor.position.y, x - corridor.position.x),
            DOWN => (corridor.position.y - y, x - corridor.position.x),
        };
        assert(corridor.beside(steps, side) == (x, y));
    }
}

} // verus!
