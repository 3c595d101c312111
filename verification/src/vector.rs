//! Integer vectors: positions on the dungeon grid and the wider coordinates
//! that sums of positions and lengths need.

use vstd::prelude::*;

verus! {

/// A cell of the dungeon grid, or a displacement between two cells.
#[derive(Clone, Copy, Debug, PartialEq, Eq, Structural, Hash)]
pub struct IVec2 {
    pub x: i32,
    pub y: i32,
}

/// A point whose coordinates may lie beyond the grid: what a position plus a
/// length comes to before it is known to be a cell.
#[derive(Clone, Copy, Debug, PartialEq, Eq, Structural, Hash)]
pub struct I64Vec2 {
    pub x: i64,
    pub y: i64,
}

impl IVec2 {
    /// The cell in column `x` and row `y`.
    pub fn new(x: i32, y: i32) -> (v: IVec2)
        ensures
            v == (IVec2 { x, y }),
    {
        IVec2 { x, y }
    }

    /// The same point with wide coordinates.
    pub open spec fn spec_widen(self) -> I64Vec2 {
        I64Vec2 { x: self.x as i64, y: self.y as i64 }
    }

    /// The same point with wide coordinates.
    #[verifier::when_used_as_spec(spec_widen)]
    pub fn widen(self) -> (v: I64Vec2)
        ensures
            v == self.spec_widen(),
    {
        I64Vec2 { x: self.x as i64, y: self.y as i64 }
    }
}

impl I64Vec2 {
    /// The point with the coordinates `x` and `y`.
    pub fn new(x: i64, y: i64) -> (v: I64Vec2)
        ensures
            v == (I64Vec2 { x, y }),
    {
        I64Vec2 { x, y }
    }

    /// Whether both coordinates are coordinates of a grid cell.
    pub open spec fn on_grid(self) -> bool {
        &&& i32::MIN <= self.x <= i32::MAX
        &&& i32::MIN <= self.y <= i32::MAX
    }

    /// The grid cell at this point, if there is one.
    pub open spec fn spec_narrow(self) -> Option<IVec2> {
        if self.on_grid() {
            Some(IVec2 { x: self.x as i32, y: self.y as i32 })
        } else {
            None
        }
    }

    /// The grid cell at this point, if there is one.
    #[verifier::when_used_as_spec(spec_narrow)]
    pub fn narrow(self) -> (cell: Option<IVec2>)
        ensures
            cell == self.spec_narrow(),
    {
        let x_on_grid = i32::MIN as i64 <= self.x && self.x <= i32::MAX as i64;
        let y_on_grid = i32::MIN as i64 <= self.y && self.y <= i32::MAX as i64;
        if x_on_grid && y_on_grid {
            Some(IVec2 { x: self.x as i32, y: self.y as i32 })
        } else {
            None
        }
    }
}

} // verus!
