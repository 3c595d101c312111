//! Why a generation step, or a run of steps, did not go through.

use vstd::prelude::*;
use vstd::string::StringExecFns;
use crate::spawn_generation::SpawnType;

verus! {

/// The kind of shape that a placement step puts on the floor plan.
#[derive(Clone, Copy, Debug, PartialEq, Eq, Structural)]
pub enum PlacedShape {
    Room,
    Corridor,
}

/// Why generation failed.
#[derive(Debug, PartialEq, Eq)]
pub enum GenerationError {
    /// The shape that a step proposed overlaps what is on the floor plan, or
    /// does not fit on the grid.
    PlacementCollision(PlacedShape),
    /// The floor plan has no room or corridor that could hold the spawn point.
    PrerequisiteMissing(SpawnType),
    /// A step was tried as often as allowed and never went through; the
    /// failure of its last attempt is inside.
    RetryBudgetExceeded(Box<GenerationError>),
}

impl GenerationError {
    /// The failure in words.
    pub open spec fn spec_message(self) -> Seq<char>
        decreases self,
    {
        match self {
            GenerationError::PlacementCollision(PlacedShape::Room) => "Failed to add room"@,
            GenerationError::PlacementCollision(PlacedShape::Corridor) => "Failed to add corridor"@,
            GenerationError::PrerequisiteMissing(SpawnType::Player) => {
                "Could not place player spawn"@
            },
            GenerationError::PrerequisiteMissing(SpawnType::Key) => "No room to place key in"@,
            GenerationError::PrerequisiteMissing(SpawnType::Door) => "Failed to place door"@,
            GenerationError::RetryBudgetExceeded(cause) => (*cause).spec_message()
                + " and exceeded maximum retries"@,
        }
    }

    /// Whether this is the failure of a single attempt of a step: no report
    /// that a retry budget ran out.
    pub open spec fn is_plain(self) -> bool {
        !(self is RetryBudgetExceeded)
    }

    /// The failure in words.
    pub fn message(&self) -> (text: String)
        ensures
            text@ == self.spec_message(),
        decreases self,
    {
        match self {
            GenerationError::PlacementCollision(PlacedShape::Room) => String::from_str(
                "Failed to add room",
            ),
            GenerationError::PlacementCollision(PlacedShape::Corridor) => String::from_str(
                "Failed to add corridor",
            ),
            GenerationError::PrerequisiteMissing(SpawnType::Player) => String::from_str(
                "Could not place player spawn",
            ),
            GenerationError::PrerequisiteMissing(SpawnType::Key) => String::from_str(
                "No room to place key in",
            ),
            GenerationError::PrerequisiteMissing(SpawnType::Door) => String::from_str(
                "Failed to place door",
            ),
            GenerationError::RetryBudgetExceeded(cause) => cause.message().concat(
                " and exceeded maximum retries",
            ),
        }
    }
}

} // verus!
