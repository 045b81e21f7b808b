//! The robot as plain mathematical values, and what each step makes of it.
//!
//! Everything here is ghost code: the handlers and the step of the
//! controller are held to these functions, and the facts about whole runs
//! are proved of them.

use crate::events::{Action, Command, PaintStatus, Report, ScanOutcome};
use crate::state::RobotState;
use crate::tracker::{any_met, reported, Quota, Resource};
use vstd::prelude::*;

verus! {

/// The quantity of trees that a new robot sets out to gather.
pub const GOAL_QUANTITY: usize = 20;

/// The largest countdown of paintings that can be drawn.
pub const MAX_COUNTDOWN: i32 = 13;

/// How far the spyglass looks.
pub const SCAN_DISTANCE: usize = 10;

/// What a failed step of `INIT` says.
pub open spec fn init_failure() -> Seq<char> {
    "\nARTEMIS-IA: failed to init\n"@
}

/// What a failed step of `CHILL` says.
pub open spec fn chill_failure() -> Seq<char> {
    "\nARTEMIS-IA: failed to chill\n"@
}

/// What a failed step of `GATHER` says.
pub open spec fn gather_failure() -> Seq<char> {
    "\nARTEMIS-IA: failed to gather\n"@
}

/// What a failed step of `PAINT` says, given the painter's reason.
pub open spec fn paint_failure(reason: Seq<char>) -> Seq<char> {
    "\nARTEMIS-IA: painting failed because "@ + reason + "\n"@
}

/// What a step says that was handed a report for another state.
pub open spec fn misfit_failure() -> Seq<char> {
    "\nARTEMIS-IA: the report is for another state\n"@
}

/// A handler's result with its message as a sequence of characters.
pub open spec fn outcome_view(outcome: Result<RobotState, String>) -> Result<
    RobotState,
    Seq<char>,
> {
    match outcome {
        Ok(next) => Ok(next),
        Err(message) => Err(message@),
    }
}

/// What a robot is, as plain mathematical values.
#[verifier::ext_equal]
pub struct AgentView {
    /// The side of the square world.
    pub wrld_size: usize,
    /// The current state.
    pub state: RobotState,
    /// How many more paintings of the robot's own choice it may still paint.
    pub countdown: int,
    /// The tiles still to be visited, first in, first out.
    pub contents: Seq<(usize, usize)>,
    /// The moves still to be made towards the tile being visited.
    pub actions: Seq<Action>,
    /// The quotas of the completion tracker.
    pub quotas: Seq<Quota>,
}

impl AgentView {
    /// The tile for which a route has to be planned before the robot can go
    /// on: the first tile still to be visited, when no route is under way.
    pub open spec fn pending_target(self) -> Option<(usize, usize)> {
        if self.actions.len() == 0 && self.contents.len() > 0 {
            Some(self.contents[0])
        } else {
            None
        }
    }

    /// The route that a step of `DETECT` works on: the one under way, or else
    /// the one planned for the pending target. It is empty when the planner
    /// found none and when there is no target.
    pub open spec fn route(self, plan: Option<Vec<Action>>) -> Seq<Action> {
        if self.actions.len() > 0 {
            self.actions
        } else if self.pending_target() is Some && plan is Some {
            plan->Some_0@
        } else {
            Seq::empty()
        }
    }

    /// The move that a step of `DETECT` makes: the first of the route, unless
    /// the route has a single move left, which is never made.
    pub open spec fn detect_move(self, plan: Option<Vec<Action>>) -> Option<Action> {
        if self.route(plan).len() > 1 {
            Some(self.route(plan)[0])
        } else {
            None
        }
    }

    /// The state that a step of `DETECT` proposes: `CHILL` when there is
    /// neither a route nor a target, `GATHER` when the route is down to its
    /// last move, and `DETECT` again otherwise.
    pub open spec fn detect_next(self, plan: Option<Vec<Action>>) -> RobotState {
        if self.actions.len() == 0 && self.contents.len() == 0 {
            RobotState::CHILL
        } else if self.route(plan).len() == 1 || self.route(plan).len() == 2 {
            RobotState::GATHER
        } else {
            RobotState::DETECT
        }
    }

    /// The robot after a step of `DETECT`: the pending target is taken off
    /// its queue, the move that was made is taken off the route, and a route
    /// that is down to its last move is dropped.
    pub open spec fn detect_step(self, plan: Option<Vec<Action>>) -> AgentView {
        AgentView {
            contents: if self.pending_target() is Some {
                self.contents.skip(1)
            } else {
                self.contents
            },
            actions: if self.route(plan).len() > 2 {
                self.route(plan).skip(1)
            } else {
                Seq::empty()
            },
            ..self
        }
    }

    /// The robot after a step of `INIT` that drew `draw`: the countdown is
    /// the number drawn, if it is one that can be drawn.
    pub open spec fn init_step(self, draw: i32) -> AgentView {
        if 0 <= draw <= MAX_COUNTDOWN {
            AgentView { countdown: draw as int, ..self }
        } else {
            self
        }
    }

    /// What a step of `INIT` that drew `draw` proposes.
    pub open spec fn init_outcome(self, draw: i32) -> Result<RobotState, Seq<char>> {
        if 0 <= draw <= MAX_COUNTDOWN {
            Ok(RobotState::CHILL)
        } else {
            Err(init_failure())
        }
    }

    /// The robot after a step of `CHILL`: unless the look around failed, the
    /// tiles to visit are the rocks followed by the trees, and nothing else.
    pub open spec fn chill_step(
        self,
        scan: ScanOutcome,
        rocks: Seq<(usize, usize)>,
        trees: Seq<(usize, usize)>,
    ) -> AgentView {
        if scan == ScanOutcome::Failed {
            self
        } else {
            AgentView { contents: rocks + trees, ..self }
        }
    }

    /// What a step of `CHILL` proposes: `DETECT` when there is a tile to
    /// visit, `CHILL` again when there is none.
    pub open spec fn chill_outcome(
        self,
        scan: ScanOutcome,
        rocks: Seq<(usize, usize)>,
        trees: Seq<(usize, usize)>,
    ) -> Result<RobotState, Seq<char>> {
        if scan == ScanOutcome::Failed {
            Err(chill_failure())
        } else if rocks.len() + trees.len() == 0 {
            Ok(RobotState::CHILL)
        } else {
            Ok(RobotState::DETECT)
        }
    }

    /// The quotas after a yield was reported; a failed collection reports
    /// nothing. Whatever was picked up counts as trees.
    pub open spec fn credit(quotas: Seq<Quota>, collected: Option<usize>) -> Seq<Quota> {
        match collected {
            Some(amount) => reported(quotas, Resource::Tree, amount),
            None => quotas,
        }
    }

    /// The robot after a step of `GATHER`: the yield of rocks is reported,
    /// then the yield of trees.
    pub open spec fn gather_step(
        self,
        rock_yield: Option<usize>,
        tree_yield: Option<usize>,
    ) -> AgentView {
        AgentView {
            quotas: Self::credit(Self::credit(self.quotas, rock_yield), tree_yield),
            ..self
        }
    }

    /// What a step of `GATHER` proposes: `PAINT` once a quota is met,
    /// `DETECT` as long as none is, and a failure when both collections
    /// failed.
    pub open spec fn gather_outcome(
        self,
        rock_yield: Option<usize>,
        tree_yield: Option<usize>,
    ) -> Result<RobotState, Seq<char>> {
        if rock_yield is None && tree_yield is None {
            Err(gather_failure())
        } else if any_met(self.gather_step(rock_yield, tree_yield).quotas) {
            Ok(RobotState::PAINT)
        } else {
            Ok(RobotState::DETECT)
        }
    }

    /// The robot after a step of `PAINT`: a painting that ran to one of the
    /// painter's four results costs one of the countdown, as long as any is
    /// left. A painting that failed costs nothing.
    pub open spec fn paint_step(self, outcome: Result<PaintStatus, String>) -> AgentView {
        if outcome is Ok && self.countdown > 0 {
            AgentView { countdown: self.countdown - 1, ..self }
        } else {
            self
        }
    }

    /// What a step of `PAINT` proposes: `DIE` after a finished painting that
    /// leaves nothing of the countdown, `DETECT` when materials are missing,
    /// `CHILL` otherwise, and a failure when the painter failed.
    pub open spec fn paint_outcome(self, outcome: Result<PaintStatus, String>) -> Result<
        RobotState,
        Seq<char>,
    > {
        match outcome {
            Ok(status) => Ok(
                if status == PaintStatus::Finished && self.paint_step(outcome).countdown <= 0 {
                    RobotState::DIE
                } else if status == PaintStatus::WaitingForMaterials {
                    RobotState::DETECT
                } else {
                    RobotState::CHILL
                },
            ),
            Err(reason) => Err(paint_failure(reason@)),
        }
    }

    /// Whether a step on `report` is a painting that ran to one of the
    /// painter's results.
    pub open spec fn paints(self, report: Report) -> bool {
        &&& self.state == RobotState::PAINT
        &&& report matches Report::Paint { outcome }
        &&& outcome is Ok
    }

    /// The robot after the handler of its state has dealt with `report`. A
    /// report for another state changes nothing.
    pub open spec fn handled(self, report: Report) -> AgentView {
        match (self.state, report) {
            (RobotState::INIT, Report::Init { draw }) => self.init_step(draw),
            (RobotState::CHILL, Report::Chill { scan, rocks, trees }) => self.chill_step(
                scan,
                rocks@,
                trees@,
            ),
            (RobotState::DETECT, Report::Detect { plan }) => self.detect_step(plan),
            (RobotState::GATHER, Report::Gather { rock_yield, tree_yield }) => self.gather_step(
                rock_yield,
                tree_yield,
            ),
            (RobotState::PAINT, Report::Paint { outcome }) => self.paint_step(outcome),
            _ => self,
        }
    }

    /// What the handler of the robot's state proposes for `report`: the next
    /// state, or why the step failed.
    pub open spec fn proposal(self, report: Report) -> Result<RobotState, Seq<char>> {
        match (self.state, report) {
            (RobotState::INIT, Report::Init { draw }) => self.init_outcome(draw),
            (RobotState::CHILL, Report::Chill { scan, rocks, trees }) => self.chill_outcome(
                scan,
                rocks@,
                trees@,
            ),
            (RobotState::DETECT, Report::Detect { plan }) => Ok(self.detect_next(plan)),
            (RobotState::GATHER, Report::Gather { rock_yield, tree_yield }) => self.gather_outcome(
                rock_yield,
                tree_yield,
            ),
            (RobotState::PAINT, Report::Paint { outcome }) => self.paint_outcome(outcome),
            (RobotState::DIE, Report::Die) => Ok(RobotState::DIE),
            _ => Err(misfit_failure()),
        }
    }

    /// What a step asks the caller to carry out: the move of a step of
    /// `DETECT`, the farewell of a step of `DIE`, and nothing otherwise.
    pub open spec fn command(self, report: Report) -> Command {
        match (self.state, report) {
            (RobotState::DETECT, Report::Detect { plan }) => match self.detect_move(plan) {
                Some(action) => Command::Perform(action),
                None => Command::Nothing,
            },
            (RobotState::DIE, Report::Die) => Command::NotifyTerminated,
            _ => Command::Nothing,
        }
    }

    /// The robot after one whole step: what the handler left, in the state
    /// it proposed. A failed step leaves the state as it was.
    pub open spec fn step(self, report: Report) -> AgentView {
        match self.proposal(report) {
            Ok(next) => AgentView { state: next, ..self.handled(report) },
            Err(_) => self.handled(report),
        }
    }

    /// The robot after the steps for `reports`, taken in order.
    pub open spec fn run_all(self, reports: Seq<Report>) -> AgentView
        decreases reports.len(),
    {
        if reports.len() == 0 {
            self
        } else {
            self.run_all(reports.drop_last()).step(reports.last())
        }
    }

    /// What holds of a robot between steps: the countdown is one that can be
    /// drawn, a route is under way only in `DETECT`, and no route is ever
    /// left with a single move.
    pub open spec fn inv(self) -> bool {
        &&& 0 <= self.countdown <= MAX_COUNTDOWN
        &&& self.state != RobotState::DETECT ==> self.actions.len() == 0
        &&& self.actions.len() != 1
    }
}

} // verus!
