//! The robot's states and the table of moves between them.

use vstd::prelude::*;

verus! {

/// The phases of the robot's life. Exactly one is current at any time.
#[allow(non_camel_case_types)]
#[derive(Debug, Clone, Copy, PartialEq, Eq, Structural)]
pub enum RobotState {
    /// Nothing has happened yet; the countdown of paintings is still to be drawn.
    INIT,
    /// Wandering and looking around for rocks and trees.
    CHILL,
    /// Heading for the next spot where something was seen.
    DETECT,
    /// Picking up what lies within reach.
    GATHER,
    /// Painting on the map.
    PAINT,
    /// Retired. Nothing leads out of this state.
    DIE,
}

/// A proposed move that the table does not list.
#[derive(Debug, Clone, Copy, PartialEq, Eq, Structural)]
pub struct InvalidTransition {
    /// The state the robot was in.
    pub from: RobotState,
    /// The state that was proposed.
    pub to: RobotState,
}

/// The transition table: the pairs `(from, to)` that a step may commit.
///
/// Every pair that is not listed here is a defect of whoever proposed it.
pub open spec fn valid_transition(from: RobotState, to: RobotState) -> bool {
    match from {
        RobotState::INIT => to == RobotState::CHILL,
        RobotState::CHILL => to == RobotState::CHILL || to == RobotState::DETECT,
        RobotState::DETECT => to == RobotState::DETECT || to == RobotState::GATHER || to
            == RobotState::CHILL,
        RobotState::GATHER => to == RobotState::DETECT || to == RobotState::PAINT,
        RobotState::PAINT => to == RobotState::CHILL || to == RobotState::DETECT || to
            == RobotState::DIE,
        RobotState::DIE => to == RobotState::DIE,
    }
}

/// Looks a pair up in the transition table.
pub fn is_valid_transition(from: RobotState, to: RobotState) -> (listed: bool)
    ensures
        listed == valid_transition(from, to),
{
    match (from, to) {
        (RobotState::INIT, RobotState::CHILL)
        | (RobotState::CHILL, RobotState::CHILL)
        | (RobotState::CHILL, RobotState::DETECT)
        | (RobotState::DETECT, RobotState::DETECT)
        | (RobotState::DETECT, RobotState::GATHER)
        | (RobotState::DETECT, RobotState::CHILL)
        | (RobotState::GATHER, RobotState::DETECT)
        | (RobotState::GATHER, RobotState::PAINT)
        | (RobotState::PAINT, RobotState::CHILL)
        | (RobotState::PAINT, RobotState::DETECT)
        | (RobotState::PAINT, RobotState::DIE)
        | (RobotState::DIE, RobotState::DIE) => true,
        _ => false,
    }
}

/// Validates a proposed move: the proposed state when the table lists the
/// pair, and the offending pair otherwise.
pub fn check_transition(from: RobotState, to: RobotState) -> (checked: Result<
    RobotState,
    InvalidTransition,
>)
    ensures
        valid_transition(from, to) ==> checked == Ok::<RobotState, InvalidTransition>(to),
        !valid_transition(from, to) ==> checked == Err::<RobotState, InvalidTransition>(
            InvalidTransition { from, to },
        ),
{
    if is_valid_transition(from, to) {
        Ok(to)
    } else {
        Err(InvalidTransition { from, to })
    }
}

} // verus!
