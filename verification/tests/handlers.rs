use rusteze_ai_artemisia::{
    Action, ArtemisIA, CompletionTracker, PaintStatus, Quota, Resource, RobotState, ScanOutcome,
    ScanRequest,
};

fn robot_in(state: RobotState) -> ArtemisIA {
    let path: &[RobotState] = match state {
        RobotState::INIT => &[],
        RobotState::CHILL => &[RobotState::CHILL],
        RobotState::DETECT => &[RobotState::CHILL, RobotState::DETECT],
        RobotState::GATHER => &[RobotState::CHILL, RobotState::DETECT, RobotState::GATHER],
        RobotState::PAINT => {
            &[RobotState::CHILL, RobotState::DETECT, RobotState::GATHER, RobotState::PAINT]
        }
        RobotState::DIE => &[
            RobotState::CHILL,
            RobotState::DETECT,
            RobotState::GATHER,
            RobotState::PAINT,
            RobotState::DIE,
        ],
    };
    let mut robot = ArtemisIA::new(10);
    for next in path {
        assert_eq!(robot.commit(*next), Ok(*next));
    }
    robot
}

#[test]
fn a_new_robot_waits_in_init() {
    let robot = ArtemisIA::new(200);
    assert_eq!(robot.wrld_size(), 200);
    assert_eq!(robot.state(), RobotState::INIT);
    assert_eq!(robot.countdown(), 1);
    assert_eq!(robot.contents(), vec![]);
    assert_eq!(robot.actions(), vec![]);
    assert_eq!(robot.pending_target(), None);
    assert_eq!(robot.goal_tracker().len(), 1);
    assert_eq!(
        robot.goal_tracker().quota(0),
        Some(Quota { category: Some(Resource::Tree), target: 20, accumulated: 0 })
    );
}

#[test]
fn a_robot_can_be_given_its_own_quotas() {
    let mut tracker = CompletionTracker::new();
    tracker.add_quota(None, 3);
    let robot = ArtemisIA::with_tracker(50, tracker);
    assert_eq!(robot.wrld_size(), 50);
    assert_eq!(robot.state(), RobotState::INIT);
    assert_eq!(robot.countdown(), 1);
    assert_eq!(
        robot.goal_tracker().quota(0),
        Some(Quota { category: None, target: 3, accumulated: 0 })
    );
}

#[test]
fn init_with_a_draw_of_five() {
    let mut robot = ArtemisIA::new(10);
    assert_eq!(robot.do_init_with(5), Ok(RobotState::CHILL));
    assert_eq!(robot.countdown(), 5);
    assert_eq!(robot.state(), RobotState::INIT);
}

#[test]
fn init_takes_every_draw_from_nought_to_thirteen() {
    for draw in 0..=13 {
        let mut robot = ArtemisIA::new(10);
        assert_eq!(robot.do_init_with(draw), Ok(RobotState::CHILL));
        assert_eq!(robot.countdown(), draw);
    }
}

#[test]
fn init_refuses_a_draw_that_cannot_be_drawn() {
    for draw in [-1, 14, i32::MIN, i32::MAX] {
        let mut robot = ArtemisIA::new(10);
        assert_eq!(robot.do_init_with(draw), Err("\nARTEMIS-IA: failed to init\n".to_string()));
        assert_eq!(robot.countdown(), 1);
    }
}

#[test]
fn init_draws_its_own_countdown() {
    let mut seen = [false; 14];
    for _ in 0..2000 {
        let mut robot = ArtemisIA::new(10);
        assert_eq!(robot.do_init(), Ok(RobotState::CHILL));
        let left = robot.countdown();
        assert!((0..=13).contains(&left));
        seen[left as usize] = true;
        assert_eq!(robot.state(), RobotState::INIT);
        assert_eq!(robot.contents(), vec![]);
    }
    assert!(seen.iter().filter(|s| **s).count() > 1);
}

#[test]
fn the_countdown_is_drawn_between_nought_and_thirteen() {
    let mut seen = [false; 14];
    for _ in 0..2000 {
        let draw = ArtemisIA::draw_countdown();
        assert!((0..=13).contains(&draw));
        seen[draw as usize] = true;
    }
    assert!(seen.iter().filter(|s| **s).count() > 1);
}

#[test]
fn the_spyglass_looks_ten_tiles_around() {
    let robot = ArtemisIA::new(200);
    assert_eq!(
        robot.scan_request(3, 4, 1000),
        ScanRequest {
            row: 3,
            col: 4,
            distance: 10,
            world_size: 200,
            energy_budget: Some(1000),
            enable_cross: true,
            view_threshold: 100,
        }
    );
    let small = ArtemisIA::new(7);
    assert_eq!(small.scan_request(0, 0, 0).view_threshold, 3);
    assert_eq!(small.scan_request(0, 0, 0).energy_budget, Some(0));
}

#[test]
fn chill_without_a_find_stays_in_chill() {
    let mut robot = robot_in(RobotState::CHILL);
    assert_eq!(robot.do_chill(ScanOutcome::Complete, vec![], vec![]), Ok(RobotState::CHILL));
    assert_eq!(robot.contents(), vec![]);
}

#[test]
fn chill_with_one_find_goes_to_detect() {
    let mut robot = robot_in(RobotState::CHILL);
    assert_eq!(robot.do_chill(ScanOutcome::Complete, vec![(2, 3)], vec![]), Ok(RobotState::DETECT));
    assert_eq!(robot.contents(), vec![(2, 3)]);
}

#[test]
fn chill_queues_rocks_before_trees_and_keeps_doubles() {
    let mut robot = robot_in(RobotState::CHILL);
    assert_eq!(
        robot.do_chill(ScanOutcome::Partial, vec![(5, 5), (1, 2)], vec![(9, 9), (5, 5)]),
        Ok(RobotState::DETECT)
    );
    assert_eq!(robot.contents(), vec![(5, 5), (1, 2), (9, 9), (5, 5)]);
}

#[test]
fn chill_replaces_what_was_queued() {
    let mut robot = robot_in(RobotState::CHILL);
    assert_eq!(robot.do_chill(ScanOutcome::Complete, vec![(1, 1)], vec![(2, 2)]), Ok(RobotState::DETECT));
    assert_eq!(robot.do_chill(ScanOutcome::Complete, vec![], vec![(7, 8)]), Ok(RobotState::DETECT));
    assert_eq!(robot.contents(), vec![(7, 8)]);
    assert_eq!(robot.do_chill(ScanOutcome::Complete, vec![], vec![]), Ok(RobotState::CHILL));
    assert_eq!(robot.contents(), vec![]);
}

#[test]
fn chill_fails_when_the_look_around_failed() {
    let mut robot = robot_in(RobotState::CHILL);
    assert_eq!(robot.do_chill(ScanOutcome::Complete, vec![(1, 1)], vec![]), Ok(RobotState::DETECT));
    assert_eq!(
        robot.do_chill(ScanOutcome::Failed, vec![(4, 4)], vec![(6, 6)]),
        Err("\nARTEMIS-IA: failed to chill\n".to_string())
    );
    assert_eq!(robot.contents(), vec![(1, 1)]);
    assert_eq!(robot.state(), RobotState::CHILL);
}

#[test]
fn detect_without_target_or_route_goes_to_chill() {
    let mut robot = robot_in(RobotState::DETECT);
    assert_eq!(robot.pending_target(), None);
    assert_eq!(robot.do_detect(None), (Ok(RobotState::CHILL), None));
    assert_eq!(robot.do_detect(Some(vec![Action::East, Action::East, Action::East])), (Ok(RobotState::CHILL), None));
    assert_eq!(robot.actions(), vec![]);
}

#[test]
fn detect_plans_for_the_first_tile_queued() {
    let mut robot = robot_in(RobotState::CHILL);
    assert_eq!(robot.do_chill(ScanOutcome::Complete, vec![(2, 3)], vec![(8, 1)]), Ok(RobotState::DETECT));
    assert_eq!(robot.pending_target(), Some((2, 3)));
    assert_eq!(
        robot.do_detect(Some(vec![Action::East, Action::South, Action::Teleport(2, 3)])),
        (Ok(RobotState::DETECT), Some(Action::East))
    );
    assert_eq!(robot.contents(), vec![(8, 1)]);
    assert_eq!(robot.actions(), vec![Action::South, Action::Teleport(2, 3)]);
    assert_eq!(robot.pending_target(), None);
}

#[test]
fn detect_walks_a_route_of_three_in_two_steps() {
    let mut robot = robot_in(RobotState::CHILL);
    assert_eq!(robot.do_chill(ScanOutcome::Complete, vec![(2, 3)], vec![]), Ok(RobotState::DETECT));
    assert_eq!(robot.pending_target(), Some((2, 3)));
    let plan = vec![Action::North, Action::West, Action::South];
    assert_eq!(robot.do_detect(Some(plan)), (Ok(RobotState::DETECT), Some(Action::North)));
    assert_eq!(robot.actions().len(), 2);
    assert_eq!(robot.do_detect(None), (Ok(RobotState::GATHER), Some(Action::West)));
    assert_eq!(robot.actions(), vec![]);
    assert_eq!(robot.contents(), vec![]);
}

#[test]
fn detect_ignores_a_plan_while_a_route_is_under_way() {
    let mut robot = robot_in(RobotState::CHILL);
    assert_eq!(robot.do_chill(ScanOutcome::Complete, vec![(2, 3), (4, 4)], vec![]), Ok(RobotState::DETECT));
    let plan = vec![Action::North, Action::West, Action::South, Action::East];
    assert_eq!(robot.do_detect(Some(plan)), (Ok(RobotState::DETECT), Some(Action::North)));
    assert_eq!(
        robot.do_detect(Some(vec![Action::Teleport(0, 0), Action::Teleport(1, 1)])),
        (Ok(RobotState::DETECT), Some(Action::West))
    );
    assert_eq!(robot.actions(), vec![Action::South, Action::East]);
    assert_eq!(robot.contents(), vec![(4, 4)]);
}

#[test]
fn detect_drops_a_route_of_one_unmade() {
    let mut robot = robot_in(RobotState::CHILL);
    assert_eq!(robot.do_chill(ScanOutcome::Complete, vec![(2, 3)], vec![]), Ok(RobotState::DETECT));
    assert_eq!(robot.do_detect(Some(vec![Action::Teleport(2, 3)])), (Ok(RobotState::GATHER), None));
    assert_eq!(robot.actions(), vec![]);
    assert_eq!(robot.contents(), vec![]);
}

#[test]
fn detect_makes_one_move_of_a_route_of_two() {
    let mut robot = robot_in(RobotState::CHILL);
    assert_eq!(robot.do_chill(ScanOutcome::Complete, vec![(2, 3)], vec![]), Ok(RobotState::DETECT));
    assert_eq!(
        robot.do_detect(Some(vec![Action::East, Action::West])),
        (Ok(RobotState::GATHER), Some(Action::East))
    );
    assert_eq!(robot.actions(), vec![]);
}

#[test]
fn detect_drops_a_tile_that_cannot_be_reached() {
    let mut robot = robot_in(RobotState::CHILL);
    assert_eq!(robot.do_chill(ScanOutcome::Complete, vec![(2, 3)], vec![(6, 6)]), Ok(RobotState::DETECT));
    assert_eq!(robot.do_detect(None), (Ok(RobotState::DETECT), None));
    assert_eq!(robot.contents(), vec![(6, 6)]);
    assert_eq!(robot.actions(), vec![]);
    assert_eq!(robot.pending_target(), Some((6, 6)));
    assert_eq!(robot.do_detect(Some(vec![])), (Ok(RobotState::DETECT), None));
    assert_eq!(robot.contents(), vec![]);
    assert_eq!(robot.do_detect(None), (Ok(RobotState::CHILL), None));
}

#[test]
fn a_route_of_five_takes_four_steps() {
    let mut robot = robot_in(RobotState::CHILL);
    assert_eq!(robot.do_chill(ScanOutcome::Complete, vec![(2, 3)], vec![]), Ok(RobotState::DETECT));
    let route =
        vec![Action::East, Action::South, Action::West, Action::North, Action::Teleport(2, 3)];
    let mut plan = Some(route.clone());
    for step in 0..4 {
        let (proposed, made) = robot.do_detect(plan.take());
        assert_eq!(made, Some(route[step]));
        if step < 3 {
            assert_eq!(proposed, Ok(RobotState::DETECT));
            assert_eq!(robot.actions(), route[step + 1..].to_vec());
        } else {
            assert_eq!(proposed, Ok(RobotState::GATHER));
            assert_eq!(robot.actions(), vec![]);
        }
    }
}

#[test]
fn gather_that_meets_the_quota_goes_to_paint() {
    let mut robot = robot_in(RobotState::GATHER);
    assert_eq!(robot.do_gather(None, Some(20)), Ok(RobotState::PAINT));
    assert_eq!(robot.goal_tracker().quota(0).unwrap().accumulated, 20);
    assert!(robot.goal_tracker().is_any_met());
}

#[test]
fn gather_below_the_quota_goes_back_to_detect() {
    let mut robot = robot_in(RobotState::GATHER);
    assert_eq!(robot.do_gather(Some(0), Some(19)), Ok(RobotState::DETECT));
    assert_eq!(robot.goal_tracker().quota(0).unwrap().accumulated, 19);
    assert_eq!(robot.do_gather(None, Some(1)), Ok(RobotState::PAINT));
    assert_eq!(robot.goal_tracker().quota(0).unwrap().accumulated, 20);
}

#[test]
fn gather_counts_rocks_towards_the_trees() {
    let mut robot = robot_in(RobotState::GATHER);
    assert_eq!(robot.do_gather(Some(12), Some(7)), Ok(RobotState::DETECT));
    assert_eq!(robot.goal_tracker().quota(0).unwrap().accumulated, 19);
    assert_eq!(robot.do_gather(Some(1), None), Ok(RobotState::PAINT));
    assert_eq!(robot.goal_tracker().quota(0).unwrap().accumulated, 20);
}

#[test]
fn gather_with_nothing_found_goes_back_to_detect() {
    let mut robot = robot_in(RobotState::GATHER);
    assert_eq!(robot.do_gather(Some(0), Some(0)), Ok(RobotState::DETECT));
    assert_eq!(robot.goal_tracker().quota(0).unwrap().accumulated, 0);
}

#[test]
fn gather_fails_when_both_collections_failed() {
    let mut robot = robot_in(RobotState::GATHER);
    assert_eq!(robot.do_gather(Some(4), None), Ok(RobotState::DETECT));
    assert_eq!(robot.do_gather(None, None), Err("\nARTEMIS-IA: failed to gather\n".to_string()));
    assert_eq!(robot.goal_tracker().quota(0).unwrap().accumulated, 4);
}

#[test]
fn gather_stays_in_paint_reach_once_the_quota_is_met() {
    let mut robot = robot_in(RobotState::GATHER);
    assert_eq!(robot.do_gather(Some(30), None), Ok(RobotState::PAINT));
    assert_eq!(robot.do_gather(Some(0), None), Ok(RobotState::PAINT));
    assert_eq!(robot.goal_tracker().quota(0).unwrap().accumulated, 30);
}

#[test]
fn gather_answers_to_a_quota_for_any_category() {
    let mut tracker = CompletionTracker::new();
    tracker.add_quota(None, 3);
    let mut robot = ArtemisIA::with_tracker(10, tracker);
    assert_eq!(robot.do_gather(Some(1), Some(1)), Ok(RobotState::DETECT));
    assert_eq!(robot.do_gather(Some(1), None), Ok(RobotState::PAINT));
    assert_eq!(robot.goal_tracker().quota(0).unwrap().accumulated, 3);
}

#[test]
fn gather_does_not_feed_a_quota_of_rocks() {
    let mut tracker = CompletionTracker::new();
    tracker.add_quota(Some(Resource::Rock), 1);
    let mut robot = ArtemisIA::with_tracker(10, tracker);
    assert_eq!(robot.do_gather(Some(5), Some(5)), Ok(RobotState::DETECT));
    assert_eq!(robot.goal_tracker().quota(0).unwrap().accumulated, 0);
}

#[test]
fn paint_with_nothing_left_and_a_finished_painting_goes_to_die() {
    let mut robot = robot_in(RobotState::INIT);
    assert_eq!(robot.do_init_with(0), Ok(RobotState::CHILL));
    assert_eq!(robot.do_paint(Ok(PaintStatus::Finished)), Ok(RobotState::DIE));
    assert_eq!(robot.countdown(), 0);
}

#[test]
fn paint_spends_the_last_of_the_countdown_and_goes_to_die() {
    let mut robot = robot_in(RobotState::INIT);
    assert_eq!(robot.do_init_with(1), Ok(RobotState::CHILL));
    assert_eq!(robot.do_paint(Ok(PaintStatus::Finished)), Ok(RobotState::DIE));
    assert_eq!(robot.countdown(), 0);
}

#[test]
fn paint_with_more_to_come_goes_to_chill() {
    let mut robot = robot_in(RobotState::INIT);
    assert_eq!(robot.do_init_with(2), Ok(RobotState::CHILL));
    assert_eq!(robot.do_paint(Ok(PaintStatus::Finished)), Ok(RobotState::CHILL));
    assert_eq!(robot.countdown(), 1);
}

#[test]
fn paint_that_is_not_finished_never_goes_to_die() {
    for (status, next) in [
        (PaintStatus::FinishedCell, RobotState::CHILL),
        (PaintStatus::WaitingForEnergy, RobotState::CHILL),
        (PaintStatus::WaitingForMaterials, RobotState::DETECT),
    ] {
        for draw in [0, 1, 5] {
            let mut robot = ArtemisIA::new(10);
            assert_eq!(robot.do_init_with(draw), Ok(RobotState::CHILL));
            assert_eq!(robot.do_paint(Ok(status)), Ok(next));
            assert_eq!(robot.countdown(), if draw > 0 { draw - 1 } else { 0 });
        }
    }
}

#[test]
fn paint_counts_down_by_one_and_stops_at_nought() {
    let mut robot = ArtemisIA::new(10);
    assert_eq!(robot.do_init_with(3), Ok(RobotState::CHILL));
    let mut left = vec![];
    for _ in 0..5 {
        let _ = robot.do_paint(Ok(PaintStatus::WaitingForEnergy));
        left.push(robot.countdown());
    }
    assert_eq!(left, vec![2, 1, 0, 0, 0]);
}

#[test]
fn paint_fails_with_the_painter_s_reason_and_costs_nothing() {
    let mut robot = ArtemisIA::new(10);
    assert_eq!(robot.do_init_with(4), Ok(RobotState::CHILL));
    assert_eq!(
        robot.do_paint(Err("NotEnoughEnergy".to_string())),
        Err("\nARTEMIS-IA: painting failed because NotEnoughEnergy\n".to_string())
    );
    assert_eq!(robot.countdown(), 4);
    assert_eq!(
        robot.do_paint(Err(String::new())),
        Err("\nARTEMIS-IA: painting failed because \n".to_string())
    );
    assert_eq!(robot.countdown(), 4);
}

#[test]
fn die_stays_in_die() {
    let mut robot = robot_in(RobotState::DIE);
    assert_eq!(robot.do_die(), Ok(RobotState::DIE));
    assert_eq!(robot.do_die(), Ok(RobotState::DIE));
    assert_eq!(robot.state(), RobotState::DIE);
    assert_eq!(robot.countdown(), 1);
}

#[test]
fn handlers_leave_the_state_to_the_step() {
    let mut robot = ArtemisIA::new(10);
    assert_eq!(robot.do_init_with(5), Ok(RobotState::CHILL));
    assert_eq!(robot.do_chill(ScanOutcome::Complete, vec![(1, 1)], vec![]), Ok(RobotState::DETECT));
    assert_eq!(robot.do_gather(Some(50), None), Ok(RobotState::PAINT));
    assert_eq!(robot.state(), RobotState::INIT);
}
