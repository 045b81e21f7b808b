use rusteze_ai_artemisia::{
    check_transition, is_valid_transition, ArtemisIA, InvalidTransition, RobotState,
};

const STATES: [RobotState; 6] = [
    RobotState::INIT,
    RobotState::CHILL,
    RobotState::DETECT,
    RobotState::GATHER,
    RobotState::PAINT,
    RobotState::DIE,
];

fn listed(from: RobotState, to: RobotState) -> bool {
    matches!(
        (from, to),
        (RobotState::INIT, RobotState::CHILL)
            | (RobotState::CHILL, RobotState::CHILL)
            | (RobotState::CHILL, RobotState::DETECT)
            | (RobotState::DETECT, RobotState::DETECT)
            | (RobotState::DETECT, RobotState::GATHER)
            | (RobotState::DETECT, RobotState::CHILL)
            | (RobotState::GATHER, RobotState::DETECT)
            | (RobotState::GATHER, RobotState::PAINT)
            | (RobotState::PAINT, RobotState::CHILL)
            | (RobotState::PAINT, RobotState::DETECT)
            | (RobotState::PAINT, RobotState::DIE)
            | (RobotState::DIE, RobotState::DIE)
    )
}

#[test]
fn the_table_lists_twelve_moves_and_no_other() {
    let mut count = 0;
    for from in STATES {
        for to in STATES {
            assert_eq!(is_valid_transition(from, to), listed(from, to), "{:?} -> {:?}", from, to);
            if is_valid_transition(from, to) {
                count += 1;
            }
        }
    }
    assert_eq!(count, 12);
}

#[test]
fn a_listed_move_is_handed_back() {
    for from in STATES {
        for to in STATES {
            if listed(from, to) {
                assert_eq!(check_transition(from, to), Ok(to));
            }
        }
    }
}

#[test]
fn a_move_outside_the_table_is_refused_with_its_pair() {
    for from in STATES {
        for to in STATES {
            if !listed(from, to) {
                assert_eq!(check_transition(from, to), Err(InvalidTransition { from, to }));
            }
        }
    }
}

#[test]
fn nothing_leads_out_of_die() {
    for to in STATES {
        assert_eq!(is_valid_transition(RobotState::DIE, to), to == RobotState::DIE);
    }
}

#[test]
fn nothing_leads_back_to_init() {
    for from in STATES {
        assert!(!is_valid_transition(from, RobotState::INIT));
    }
}

#[test]
fn committing_a_listed_move_enters_the_state() {
    let mut robot = ArtemisIA::new(10);
    assert_eq!(robot.commit(RobotState::CHILL), Ok(RobotState::CHILL));
    assert_eq!(robot.state(), RobotState::CHILL);
    assert_eq!(robot.commit(RobotState::DETECT), Ok(RobotState::DETECT));
    assert_eq!(robot.state(), RobotState::DETECT);
}

#[test]
fn forcing_a_move_outside_the_table_is_refused_and_changes_nothing() {
    let mut robot = ArtemisIA::new(10);
    assert_eq!(
        robot.commit(RobotState::DIE),
        Err(InvalidTransition { from: RobotState::INIT, to: RobotState::DIE })
    );
    assert_eq!(robot.state(), RobotState::INIT);
    assert_eq!(robot.countdown(), 1);

    assert_eq!(robot.commit(RobotState::CHILL), Ok(RobotState::CHILL));
    assert_eq!(
        robot.commit(RobotState::PAINT),
        Err(InvalidTransition { from: RobotState::CHILL, to: RobotState::PAINT })
    );
    assert_eq!(robot.state(), RobotState::CHILL);
}
