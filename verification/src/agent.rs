//! The robot's controller: one handler per state, and the step that runs the
//! handler of the current state and commits the move it proposes.

use crate::events::{Action, Command, PaintStatus, Report, ScanOutcome, Tick};
use crate::lifetime::{lemma_proposals_are_listed, lemma_step_keeps_inv};
use crate::model::{outcome_view, AgentView, GOAL_QUANTITY, MAX_COUNTDOWN, SCAN_DISTANCE};
use crate::random::random_in;
use crate::state::{check_transition, valid_transition, InvalidTransition, RobotState};
use crate::tracker::{CompletionTracker, Quota, Resource};
use crate::utils::{img_dir, img_name, last_img, last_img_path, rand_img, ImageRequest};
use crate::utils::{IMG_COUNT, IMG_HEIGHT};
use std::collections::VecDeque;
use vstd::prelude::*;
use vstd::string::*;

verus! {

/// What the spyglass is asked to do for one look around.
#[derive(Debug, Clone, Copy, PartialEq, Eq)]
pub struct ScanRequest {
    /// The row of the tile to look around from.
    pub row: usize,
    /// The column of the tile to look around from.
    pub col: usize,
    /// How far to look.
    pub distance: usize,
    /// The side of the square world.
    pub world_size: usize,
    /// The energy that the look may cost at most.
    pub energy_budget: Option<usize>,
    /// The spyglass's cross setting.
    pub enable_cross: bool,
    /// The spyglass's view threshold.
    pub view_threshold: usize,
}

/// The robot's decision core: its state, its countdown of paintings, its two
/// work queues and its completion tracker.
#[derive(Debug)]
pub struct ArtemisIA {
    wrld_size: usize,
    state: RobotState,
    countdown: i32,
    contents: VecDeque<(usize, usize)>,
    actions: VecDeque<Action>,
    goal_tracker: CompletionTracker,
}

impl View for ArtemisIA {
    type V = AgentView;

    closed spec fn view(&self) -> AgentView {
        AgentView {
            wrld_size: self.wrld_size,
            state: self.state,
            countdown: self.countdown as int,
            contents: self.contents@,
            actions: self.actions@,
            quotas: self.goal_tracker@,
        }
    }
}

/// Appends `items` to `queue`, in their order.
fn push_all<T: Copy>(queue: &mut VecDeque<T>, items: &Vec<T>)
    ensures
        final(queue)@ == old(queue)@ + items@,
{
    let mut i: usize = 0;
    while i < items.len()
        invariant
            i <= items.len(),
            queue@ == old(queue)@ + items@.take(i as int),
        decreases items.len() - i,
    {
        queue.push_back(items[i]);
        i += 1;
    }
}

/// The items of `queue`, in their order.
fn items_of<T: Copy>(queue: &VecDeque<T>) -> (items: Vec<T>)
    ensures
        items@ == queue@,
{
    let mut items: Vec<T> = Vec::new();
    let mut i: usize = 0;
    while i < queue.len()
        invariant
            i <= queue.len(),
            items@ == queue@.take(i as int),
        decreases queue.len() - i,
    {
        items.push(queue[i]);
        i += 1;
    }
    items
}

impl ArtemisIA {
    /// A robot for a world of side `wrld_size`, set out to gather twenty
    /// trees: in `INIT`, with a countdown of one, nothing to visit and
    /// nowhere to go.
    pub fn new(wrld_size: usize) -> (robot: ArtemisIA)
        ensures
            robot@ == (AgentView {
                wrld_size,
                state: RobotState::INIT,
                countdown: 1,
                contents: Seq::empty(),
                actions: Seq::empty(),
                quotas: seq![
                    Quota { category: Some(Resource::Tree), target: GOAL_QUANTITY, accumulated: 0 },
                ],
            }),
            robot@.inv(),
    {
        let mut goal_tracker = CompletionTracker::new();
        goal_tracker.add_quota(Some(Resource::Tree), GOAL_QUANTITY);
        ArtemisIA {
            wrld_size,
            state: RobotState::INIT,
            countdown: 1,
            contents: VecDeque::new(),
            actions: VecDeque::new(),
            goal_tracker,
        }
    }

    /// A robot for a world of side `wrld_size` that answers to the quotas of
    /// `tracker`, otherwise like a new one.
    pub fn with_tracker(wrld_size: usize, tracker: CompletionTracker) -> (robot: ArtemisIA)
        ensures
            robot@ == (AgentView {
                wrld_size,
                state: RobotState::INIT,
                countdown: 1,
                contents: Seq::empty(),
                actions: Seq::empty(),
                quotas: tracker@,
            }),
            robot@.inv(),
    {
        ArtemisIA {
            wrld_size,
            state: RobotState::INIT,
            countdown: 1,
            contents: VecDeque::new(),
            actions: VecDeque::new(),
            goal_tracker: tracker,
        }
    }

    /// The side of the square world.
    pub fn wrld_size(&self) -> (side: usize)
        ensures
            side == self@.wrld_size,
    {
        self.wrld_size
    }

    /// The current state.
    pub fn state(&self) -> (state: RobotState)
        ensures
            state == self@.state,
    {
        self.state
    }

    /// What is left of the countdown of paintings.
    pub fn countdown(&self) -> (left: i32)
        ensures
            left == self@.countdown,
    {
        self.countdown
    }

    /// The tiles still to be visited, in the order in which they will be.
    pub fn contents(&self) -> (tiles: Vec<(usize, usize)>)
        ensures
            tiles@ == self@.contents,
    {
        items_of(&self.contents)
    }

    /// The moves still to be made on the route under way, in their order.
    pub fn actions(&self) -> (moves: Vec<Action>)
        ensures
            moves@ == self@.actions,
    {
        items_of(&self.actions)
    }

    /// The completion tracker.
    pub fn goal_tracker(&self) -> (tracker: &CompletionTracker)
        ensures
            tracker@ == self@.quotas,
    {
        &self.goal_tracker
    }

    /// The tile for which the caller has to plan a route before the next step
    /// of `DETECT`, if there is one.
    pub fn pending_target(&self) -> (target: Option<(usize, usize)>)
        ensures
            target == self@.pending_target(),
    {
        if self.actions.len() == 0 && self.contents.len() > 0 {
            Some(self.contents[0])
        } else {
            None
        }
    }

    /// The handler of `DETECT`.
    ///
    /// When no route is under way it takes the next tile off the queue and
    /// adopts `plan` as the route to it; without a tile it proposes `CHILL`.
    /// It then takes one move off the route and hands it out to be made. A
    /// route that is down to one move is dropped with that move unmade, and
    /// the handler proposes `GATHER`.
    ///
    /// `plan` is the route to `pending_target()`, or `None` when the planner
    /// found none; then the tile is dropped and the robot stays in `DETECT`.
    pub fn do_detect(&mut self, plan: Option<Vec<Action>>) -> (step: (
        Result<RobotState, String>,
        Option<Action>,
    ))
        ensures
            final(self)@ == old(self)@.detect_step(plan),
            step.0 == Ok::<RobotState, String>(old(self)@.detect_next(plan)),
            step.1 == old(self)@.detect_move(plan),
    {
        if self.actions.len() == 0 {
            match self.contents.pop_front() {
                Some(_) => {
                    if let Some(route) = &plan {
                        push_all(&mut self.actions, route);
                    }
                },
                None => {
                    return (Ok(RobotState::CHILL), None);
                },
            }
        }
        let mut made: Option<Action> = None;
        if self.actions.len() > 1 {
            made = self.actions.pop_front();
        }
        if self.actions.len() == 1 {
            self.actions = VecDeque::new();
            return (Ok(RobotState::GATHER), made);
        }
        (Ok(RobotState::DETECT), made)
    }

    /// Draws the countdown of paintings: a number from 0 to 13.
    pub fn draw_countdown() -> (draw: i32)
        ensures
            0 <= draw <= MAX_COUNTDOWN,
    {
        random_in(0, MAX_COUNTDOWN)
    }

    /// The handler of `INIT`, given the number drawn for the countdown.
    ///
    /// It sets the countdown to `draw` and proposes `CHILL`. A `draw` that
    /// `draw_countdown` cannot give fails the step and changes nothing.
    pub fn do_init_with(&mut self, draw: i32) -> (proposed: Result<RobotState, String>)
        ensures
            final(self)@ == old(self)@.init_step(draw),
            outcome_view(proposed) == old(self)@.init_outcome(draw),
    {
        if 0 <= draw && draw <= MAX_COUNTDOWN {
            self.countdown = draw;
            Ok(RobotState::CHILL)
        } else {
            Err(String::from_str("\nARTEMIS-IA: failed to init\n"))
        }
    }

    /// The handler of `INIT`: draws the countdown of paintings and proposes
    /// `CHILL`. It cannot fail.
    pub fn do_init(&mut self) -> (proposed: Result<RobotState, String>)
        ensures
            0 <= final(self)@.countdown <= MAX_COUNTDOWN,
            final(self)@ == (AgentView { countdown: final(self)@.countdown, ..old(self)@ }),
            proposed == Ok::<RobotState, String>(RobotState::CHILL),
    {
        let draw: i32 = Self::draw_countdown();
        self.do_init_with(draw)
    }

    /// What to ask of the spyglass in a step of `CHILL`, for a robot on the
    /// tile at `row` and `col` that has `energy` left: a look of ten tiles
    /// around, in cross, that may use up all the energy, with half the side of
    /// the world as its view threshold.
    pub fn scan_request(&self, row: usize, col: usize, energy: usize) -> (request: ScanRequest)
        ensures
            request == (ScanRequest {
                row,
                col,
                distance: SCAN_DISTANCE,
                world_size: self@.wrld_size,
                energy_budget: Some(energy),
                enable_cross: true,
                view_threshold: (self@.wrld_size / 2) as usize,
            }),
    {
        ScanRequest {
            row,
            col,
            distance: SCAN_DISTANCE,
            world_size: self.wrld_size,
            energy_budget: Some(energy),
            enable_cross: true,
            view_threshold: self.wrld_size / 2,
        }
    }

    /// The handler of `CHILL`, given how the look around ended and where
    /// rocks and trees are now known to be.
    ///
    /// The tiles to visit are replaced by `rocks` followed by `trees`, as
    /// they come; the handler proposes `DETECT` when there is any, and
    /// `CHILL` again when there is none. A look that failed fails the step
    /// and changes nothing.
    pub fn do_chill(
        &mut self,
        scan: ScanOutcome,
        rocks: Vec<(usize, usize)>,
        trees: Vec<(usize, usize)>,
    ) -> (proposed: Result<RobotState, String>)
        ensures
            final(self)@ == old(self)@.chill_step(scan, rocks@, trees@),
            outcome_view(proposed) == old(self)@.chill_outcome(scan, rocks@, trees@),
    {
        if let ScanOutcome::Failed = scan {
            return Err(String::from_str("\nARTEMIS-IA: failed to chill\n"));
        }
        self.contents = VecDeque::new();
        push_all(&mut self.contents, &rocks);
        push_all(&mut self.contents, &trees);
        if self.contents.len() == 0 {
            Ok(RobotState::CHILL)
        } else {
            Ok(RobotState::DETECT)
        }
    }

    /// The handler of `GATHER`, given how many rocks and how many trees were
    /// picked up (`None` for a collection that failed).
    ///
    /// Both yields are reported to the tracker as trees. The handler
    /// proposes `PAINT` once a quota is met and `DETECT` as long as none is.
    /// When both collections failed the step fails and changes nothing.
    pub fn do_gather(&mut self, rock_yield: Option<usize>, tree_yield: Option<usize>) -> (proposed:
        Result<RobotState, String>)
        ensures
            final(self)@ == old(self)@.gather_step(rock_yield, tree_yield),
            outcome_view(proposed) == old(self)@.gather_outcome(rock_yield, tree_yield),
    {
        if let Some(count) = rock_yield {
            self.goal_tracker.report(Resource::Tree, count);
        }
        if let Some(count) = tree_yield {
            self.goal_tracker.report(Resource::Tree, count);
        }
        if rock_yield.is_some() || tree_yield.is_some() {
            if self.goal_tracker.is_any_met() {
                Ok(RobotState::PAINT)
            } else {
                Ok(RobotState::DETECT)
            }
        } else {
            Err(String::from_str("\nARTEMIS-IA: failed to gather\n"))
        }
    }

    /// The painting for a step of `PAINT`: one of the catalogue, picked at
    /// random, as long as the countdown is above zero, and the closing
    /// painting once it is not.
    pub fn next_painting(&self) -> (request: ImageRequest)
        ensures
            self@.countdown > 0 ==> exists|index: int|
                0 <= index < IMG_COUNT && request.path@ == img_dir() + #[trigger] img_name(index),
            self@.countdown <= 0 ==> request.path@ == last_img_path(),
            request.resize_height == IMG_HEIGHT,
    {
        if self.countdown > 0 {
            rand_img()
        } else {
            last_img()
        }
    }

    /// The handler of `PAINT`, given how far the painter got with
    /// `next_painting()`, or why it failed.
    ///
    /// A painting that ran to one of the painter's results costs one of the
    /// countdown while any is left. The handler proposes `DIE` after a
    /// finished painting that leaves nothing of the countdown, `DETECT` when
    /// materials are missing, and `CHILL` otherwise. When the painter failed
    /// the step fails and changes nothing.
    pub fn do_paint(&mut self, outcome: Result<PaintStatus, String>) -> (proposed: Result<
        RobotState,
        String,
    >)
        ensures
            final(self)@ == old(self)@.paint_step(outcome),
            outcome_view(proposed) == old(self)@.paint_outcome(outcome),
    {
        match outcome {
            Ok(status) => {
                if self.countdown > 0 {
                    self.countdown -= 1;
                }
                match status {
                    PaintStatus::Finished => {
                        if self.countdown <= 0 {
                            Ok(RobotState::DIE)
                        } else {
                            Ok(RobotState::CHILL)
                        }
                    },
                    PaintStatus::FinishedCell | PaintStatus::WaitingForEnergy => Ok(
                        RobotState::CHILL,
                    ),
                    PaintStatus::WaitingForMaterials => Ok(RobotState::DETECT),
                }
            },
            Err(reason) => Err(
                String::from_str("\nARTEMIS-IA: painting failed because ").concat(
                    reason.as_str(),
                ).concat("\n"),
            ),
        }
    }

    /// The handler of `DIE`: the robot stays retired. The farewell is the
    /// caller's to deliver.
    pub fn do_die(&mut self) -> (proposed: Result<RobotState, String>)
        ensures
            final(self)@ == old(self)@,
            proposed == Ok::<RobotState, String>(RobotState::DIE),
    {
        Ok(RobotState::DIE)
    }

    /// Commits a proposed move: the robot enters `proposed` when the
    /// transition table lists the move from its state, and stays as it is,
    /// handing back the offending pair, when not.
    pub fn commit(&mut self, proposed: RobotState) -> (committed: Result<
        RobotState,
        InvalidTransition,
    >)
        ensures
            valid_transition(old(self)@.state, proposed) ==> committed == Ok::<
                RobotState,
                InvalidTransition,
            >(proposed) && final(self)@ == (AgentView { state: proposed, ..old(self)@ }),
            !valid_transition(old(self)@.state, proposed) ==> committed == Err::<
                RobotState,
                InvalidTransition,
            >((InvalidTransition { from: old(self)@.state, to: proposed })) && final(self)@ == old(
                self,
            )@,
    {
        match check_transition(self.state, proposed) {
            Ok(next) => {
                self.state = next;
                Ok(next)
            },
            Err(refused) => Err(refused),
        }
    }

    /// One step of the robot: runs the handler of the current state on
    /// `report` and commits the move it proposes.
    ///
    /// The step succeeds on every input. A handler that fails, or a report
    /// that belongs to another state, leaves the state as it is and is told
    /// in the tick's outcome. Every move that a handler proposes is listed in
    /// the transition table, so the refusal that the result type allows for
    /// never comes.
    pub fn run(&mut self, report: Report) -> (ticked: Result<Tick, InvalidTransition>)
        ensures
            ticked is Ok,
            final(self)@ == old(self)@.step(report),
            outcome_view(ticked->Ok_0.outcome) == old(self)@.proposal(report),
            ticked->Ok_0.command == old(self)@.command(report),
            ticked->Ok_0.outcome matches Ok(next) ==> valid_transition(old(self)@.state, next)
                && final(self)@.state == next,
            ticked->Ok_0.outcome is Err ==> final(self)@.state == old(self)@.state,
            old(self)@.inv() ==> final(self)@.inv(),
    {
        proof {
            lemma_proposals_are_listed(self@, report);
            if self@.inv() {
                lemma_step_keeps_inv(self@, report);
            }
        }
        let mut command = Command::Nothing;
        let proposed: Result<RobotState, String> = match (self.state, report) {
            (RobotState::INIT, Report::Init { draw }) => self.do_init_with(draw),
            (RobotState::CHILL, Report::Chill { scan, rocks, trees }) => self.do_chill(
                scan,
                rocks,
                trees,
            ),
            (RobotState::DETECT, Report::Detect { plan }) => {
                let (proposed, made) = self.do_detect(plan);
                if let Some(action) = made {
                    command = Command::Perform(action);
                }
                proposed
            },
            (RobotState::GATHER, Report::Gather { rock_yield, tree_yield }) => self.do_gather(
                rock_yield,
                tree_yield,
            ),
            (RobotState::PAINT, Report::Paint { outcome }) => self.do_paint(outcome),
            (RobotState::DIE, Report::Die) => {
                command = Command::NotifyTerminated;
                self.do_die()
            },
            _ => Err(String::from_str("\nARTEMIS-IA: the report is for another state\n")),
        };
        match proposed {
            Ok(next) => match self.commit(next) {
                Ok(entered) => Ok(Tick { outcome: Ok(entered), command }),
                Err(refused) => Err(refused),
            },
            Err(message) => Ok(Tick { outcome: Err(message), command }),
        }
    }
}

} // verus!
