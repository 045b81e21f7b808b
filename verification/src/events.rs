//! What goes in and out of a step: the results that the robot's tools hand
//! in, and what the caller is asked to carry out in the world.

use crate::state::RobotState;
use vstd::prelude::*;

verus! {

/// One primitive step of a route.
#[derive(Debug, Clone, Copy, PartialEq, Eq, Structural)]
pub enum Action {
    East,
    South,
    West,
    North,
    /// Jump to the tile at this row and column.
    Teleport(usize, usize),
}

/// How a look around with the spyglass ended.
#[derive(Debug, Clone, Copy, PartialEq, Eq, Structural)]
pub enum ScanOutcome {
    /// The whole area was looked at.
    Complete,
    /// The look stopped early; what was seen until then still counts.
    Partial,
    /// The look could not be made.
    Failed,
}

/// How far a painting got.
#[derive(Debug, Clone, Copy, PartialEq, Eq, Structural)]
pub enum PaintStatus {
    /// The whole painting is on the map.
    Finished,
    /// One more cell is painted, others remain.
    FinishedCell,
    /// Painting stopped for want of energy.
    WaitingForEnergy,
    /// Painting stopped for want of materials.
    WaitingForMaterials,
}

/// What the robot's tools reported for one step. Each variant belongs to the
/// state of the same name.
#[derive(Debug)]
pub enum Report {
    /// The number drawn for the countdown of paintings.
    Init { draw: i32 },
    /// How the look around ended, and where rocks and trees are now known to be.
    Chill { scan: ScanOutcome, rocks: Vec<(usize, usize)>, trees: Vec<(usize, usize)> },
    /// The route to the pending target, or `None` when the planner found
    /// none. It is read only in a step for which a target is pending.
    Detect { plan: Option<Vec<Action>> },
    /// How many rocks and how many trees were picked up; `None` for a
    /// collection that failed.
    Gather { rock_yield: Option<usize>, tree_yield: Option<usize> },
    /// How far the painting got, or why it could not be painted.
    Paint { outcome: Result<PaintStatus, String> },
    /// Nothing is needed to stay retired.
    Die,
}

impl Report {
    /// Whether this report belongs to `state`.
    pub open spec fn fits(self, state: RobotState) -> bool {
        match (state, self) {
            (RobotState::INIT, Report::Init { .. }) => true,
            (RobotState::CHILL, Report::Chill { .. }) => true,
            (RobotState::DETECT, Report::Detect { .. }) => true,
            (RobotState::GATHER, Report::Gather { .. }) => true,
            (RobotState::PAINT, Report::Paint { .. }) => true,
            (RobotState::DIE, Report::Die) => true,
            _ => false,
        }
    }
}

/// What the caller has to carry out in the world once a step is decided.
#[derive(Debug, Clone, Copy, PartialEq, Eq, Structural)]
pub enum Command {
    /// Nothing to do.
    Nothing,
    /// Make this move. A move that fails is not reported back: the robot
    /// simply stays where it is.
    Perform(Action),
    /// Tell whoever listens that the robot has retired.
    NotifyTerminated,
}

/// The result of one step.
#[derive(Debug, PartialEq, Eq)]
pub struct Tick {
    /// The state that is now current, or why the step failed and the state
    /// stayed as it was.
    pub outcome: Result<RobotState, String>,
    /// What to carry out in the world.
    pub command: Command,
}

} // verus!
