//! What holds of every step and of every run of steps.

use crate::events::{Command, Report};
use crate::model::AgentView;
use crate::state::{valid_transition, RobotState};
use vstd::prelude::*;

verus! {

/// Every move that a handler proposes is listed in the transition table.
pub proof fn lemma_proposals_are_listed(robot: AgentView, report: Report)
    ensures
        robot.proposal(report) matches Ok(next) ==> valid_transition(robot.state, next),
{
}

/// A step changes the state only along the transition table, and a failed
/// step does not change it at all.
pub proof fn lemma_step_follows_table(robot: AgentView, report: Report)
    ensures
        robot.proposal(report) is Ok ==> valid_transition(robot.state, robot.step(report).state),
        robot.proposal(report) is Err ==> robot.step(report).state == robot.state,
{
}

/// A step keeps what holds of a robot between steps.
pub proof fn lemma_step_keeps_inv(robot: AgentView, report: Report)
    requires
        robot.inv(),
    ensures
        robot.step(report).inv(),
{
}

/// Any run of steps keeps what holds of a robot between steps.
pub proof fn lemma_run_keeps_inv(robot: AgentView, reports: Seq<Report>)
    requires
        robot.inv(),
    ensures
        robot.run_all(reports).inv(),
    decreases reports.len(),
{
    if reports.len() > 0 {
        lemma_run_keeps_inv(robot, reports.drop_last());
        lemma_step_keeps_inv(robot.run_all(reports.drop_last()), reports.last());
    }
}

/// Past `INIT`, the countdown moves in one way only: a painting that ran to
/// one of the painter's results takes one off while any is left. Every other
/// step leaves the countdown as it is.
pub proof fn lemma_countdown_moves_by_painting(robot: AgentView, report: Report)
    requires
        robot.state != RobotState::INIT,
    ensures
        robot.paints(report) && robot.countdown > 0 ==> robot.step(report).countdown
            == robot.countdown - 1,
        !(robot.paints(report) && robot.countdown > 0) ==> robot.step(report).countdown
            == robot.countdown,
{
}

/// Past `INIT`, the countdown never grows, whatever steps follow, and the
/// robot never comes back to `INIT`.
pub proof fn lemma_countdown_never_grows(robot: AgentView, reports: Seq<Report>)
    requires
        robot.state != RobotState::INIT,
    ensures
        robot.run_all(reports).state != RobotState::INIT,
        robot.run_all(reports).countdown <= robot.countdown,
    decreases reports.len(),
{
    if reports.len() > 0 {
        lemma_countdown_never_grows(robot, reports.drop_last());
        lemma_countdown_moves_by_painting(robot.run_all(reports.drop_last()), reports.last());
        lemma_step_follows_table(robot.run_all(reports.drop_last()), reports.last());
    }
}

/// A step never lowers a quota: each keeps its category and its target, and
/// has at least the quantity it had.
pub proof fn lemma_step_never_lowers_quotas(robot: AgentView, report: Report)
    ensures
        robot.step(report).quotas.len() == robot.quotas.len(),
        forall|i: int|
            0 <= i < robot.quotas.len() ==> {
                let after = #[trigger] robot.step(report).quotas[i];
                &&& after.category == robot.quotas[i].category
                &&& after.target == robot.quotas[i].target
                &&& after.accumulated >= robot.quotas[i].accumulated
            },
{
}

/// No run of steps lowers a quota: each keeps its category and its target,
/// and has at least the quantity it had, so a quota that was met stays met.
pub proof fn lemma_quotas_never_lower(robot: AgentView, reports: Seq<Report>)
    ensures
        robot.run_all(reports).quotas.len() == robot.quotas.len(),
        forall|i: int|
            0 <= i < robot.quotas.len() ==> {
                let after = #[trigger] robot.run_all(reports).quotas[i];
                &&& after.category == robot.quotas[i].category
                &&& after.target == robot.quotas[i].target
                &&& after.accumulated >= robot.quotas[i].accumulated
                &&& robot.quotas[i].is_met() ==> after.is_met()
            },
    decreases reports.len(),
{
    if reports.len() > 0 {
        lemma_quotas_never_lower(robot, reports.drop_last());
        lemma_step_never_lowers_quotas(robot.run_all(reports.drop_last()), reports.last());
    }
}

/// A route of `n` moves takes `n - 1` steps of `DETECT`, whatever plans come
/// with them. Each of those steps hands out the next move of the route and
/// takes it off; the robot stays in `DETECT` until the last of them, which
/// drops the one move left, unmade, and brings the robot to `GATHER`.
///
/// `done` counts the steps taken so far, over the first `done` of `reports`.
pub proof fn lemma_route_is_walked(robot: AgentView, reports: Seq<Report>, done: int)
    requires
        robot.state == RobotState::DETECT,
        robot.actions.len() >= 2,
        0 <= done <= robot.actions.len() - 1,
        done <= reports.len(),
        forall|i: int| 0 <= i < done ==> (#[trigger] reports[i]) is Detect,
    ensures
        done < robot.actions.len() - 1 ==> robot.run_all(reports.take(done)) == (AgentView {
            actions: robot.actions.skip(done),
            ..robot
        }),
        done == robot.actions.len() - 1 ==> robot.run_all(reports.take(done)) == (AgentView {
            state: RobotState::GATHER,
            actions: Seq::empty(),
            ..robot
        }),
        done >= 1 ==> robot.run_all(reports.take(done - 1)).command(reports[done - 1])
            == Command::Perform(robot.actions[done - 1]),
    decreases done,
{
    if done == 0 {
        assert(reports.take(0).len() == 0);
        assert(robot.actions.skip(0) =~= robot.actions);
    } else {
        lemma_route_is_walked(robot, reports, done - 1);
        let before = robot.run_all(reports.take(done - 1));
        assert(reports.take(done).drop_last() =~= reports.take(done - 1));
        assert(reports.take(done).last() == reports[done - 1]);
        assert(before.actions =~= robot.actions.skip(done - 1));
        assert(before.actions.skip(1) =~= robot.actions.skip(done));
        assert(robot.run_all(reports.take(done)) == before.step(reports[done - 1]));
    }
}

/// `DIE` is final: whatever is reported to a robot in `DIE`, and however
/// often, the robot stays exactly as it is.
pub proof fn lemma_die_is_final(robot: AgentView, reports: Seq<Report>)
    requires
        robot.state == RobotState::DIE,
    ensures
        robot.run_all(reports) == robot,
    decreases reports.len(),
{
    if reports.len() > 0 {
        lemma_die_is_final(robot, reports.drop_last());
    }
}

} // verus!
