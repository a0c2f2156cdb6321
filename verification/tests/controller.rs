use card_game::controller::step_toward;
use card_game::controller::ControllerState;
use card_game::pose::next_pose;
use card_game::Direction;
use card_game::Direction::{Back, Forward, StrafeLeft, StrafeRight};
use card_game::Pose;
use card_game::Pose::{Board, Cards, Left, Neutral, Right};

/// Steps until both axis groups settle, failing the test if that takes
/// unreasonably long. Returns the number of ticks taken.
fn settle(s: &mut ControllerState) -> u32 {
    let mut ticks: u32 = 0;
    while s.angular_moving || s.linear_moving {
        s.step();
        ticks += 1;
        assert!(ticks < 1000, "controller did not settle");
    }
    ticks
}

#[test]
fn initial_state_is_neutral_and_idle() {
    let s = ControllerState::new();
    assert_eq!(s.current_pose, Pose::Neutral);
    assert_eq!(s.cur_yaw, 0);
    assert_eq!(s.cur_pitch, 0);
    assert_eq!(s.cur_depth, 0);
    assert_eq!(s.target_yaw, 0);
    assert_eq!(s.target_pitch, 0);
    assert_eq!(s.target_depth, 0);
    assert!(!s.angular_moving);
    assert!(!s.linear_moving);
    assert_eq!(s.angular_speed, 10);
    assert_eq!(s.linear_speed, 50);
    assert!(s.is_well_formed());
}

#[test]
fn default_equals_new() {
    assert_eq!(ControllerState::default(), ControllerState::new());
}

#[test]
fn reset_restores_initial_state() {
    let mut s = ControllerState::new();
    s.handle_key(Direction::Forward);
    s.step();
    s.step();
    s.reset();
    assert_eq!(s, ControllerState::new());
}

#[test]
fn forward_from_neutral_goes_to_board() {
    // Scenario: Neutral + Forward commits Board with targets
    // (yaw 0, pitch 90 deg, depth 240); the pitch axis is the slowest
    // and settles after 90 / 5 = 18 ticks.
    let mut s = ControllerState::new();
    s.handle_key(Direction::Forward);
    assert_eq!(s.current_pose, Pose::Board);
    assert_eq!(s.target_yaw, 0);
    assert_eq!(s.target_pitch, 900);
    assert_eq!(s.target_depth, 2400);
    assert_eq!(s.angular_speed, 50);
    assert_eq!(s.linear_speed, 200);
    assert!(s.angular_moving);
    assert!(s.linear_moving);
    for tick in 1..=18 {
        s.step();
        // Depth runs at 20 per tick and arrives first, at tick 12.
        assert_eq!(s.linear_moving, tick < 12);
        assert_eq!(s.angular_moving, tick < 18);
    }
    assert_eq!(s.cur_pitch, 900);
    assert_eq!(s.cur_yaw, 0);
    assert_eq!(s.cur_depth, 2400);
    assert!(s.is_well_formed());
}

#[test]
fn strafe_right_from_left_returns_to_neutral_slowly() {
    // Scenario: from a settled Left pose (yaw 20 deg, depth 50),
    // StrafeRight commits Neutral with all targets zero, and the linear
    // speed is the slow 5 per tick, not the 20 used when leaving Board.
    let mut s = ControllerState::new();
    s.handle_key(Direction::StrafeLeft);
    settle(&mut s);
    assert_eq!(s.current_pose, Pose::Left);
    assert_eq!(s.cur_yaw, 200);
    assert_eq!(s.cur_depth, 500);

    s.handle_key(Direction::StrafeRight);
    assert_eq!(s.current_pose, Pose::Neutral);
    assert_eq!(s.target_yaw, 0);
    assert_eq!(s.target_pitch, 0);
    assert_eq!(s.target_depth, 0);
    assert_eq!(s.linear_speed, 50);
    assert_eq!(s.angular_speed, 10);
}

#[test]
fn leaving_board_uses_fast_linear_speed() {
    let mut s = ControllerState::new();
    s.handle_key(Direction::Forward);
    settle(&mut s);
    s.handle_key(Direction::Forward);
    assert_eq!(s.current_pose, Pose::Neutral);
    assert_eq!(s.linear_speed, 200);
    let out = s.step();
    assert_eq!(out.lin_vel, -200);
}

#[test]
fn unmapped_direction_changes_nothing() {
    // Scenario: a direction with no table entry for the current pose is
    // a no-op in every field.
    let mut s = ControllerState::new();
    s.handle_key(Direction::StrafeLeft);
    settle(&mut s);
    assert_eq!(s.current_pose, Pose::Left);

    let before = s;
    s.handle_key(Direction::Forward);
    assert_eq!(s, before);
    s.handle_key(Direction::Back);
    assert_eq!(s, before);
    s.handle_key(Direction::StrafeLeft);
    assert_eq!(s, before);

    // Board only answers Forward; Cards only answers Back.
    let mut b = ControllerState::new();
    b.handle_key(Direction::Forward);
    settle(&mut b);
    let before_b = b;
    b.handle_key(Direction::Back);
    b.handle_key(Direction::StrafeLeft);
    b.handle_key(Direction::StrafeRight);
    assert_eq!(b, before_b);
}

#[test]
fn second_key_while_moving_is_dropped() {
    // Scenario: a second valid key during a transition leaves every
    // field unchanged (non-preemption), shown by snapshot equality.
    let mut s = ControllerState::new();
    s.handle_key(Direction::Forward);
    s.step();
    assert!(s.angular_moving);
    let before = s;
    s.handle_key(Direction::Forward);
    assert_eq!(s, before);
    assert_eq!(s.current_pose, Pose::Board);
    assert_eq!(s.target_yaw, before.target_yaw);
    assert_eq!(s.target_pitch, before.target_pitch);
    s.handle_key(Direction::StrafeLeft);
    assert_eq!(s, before);
}

#[test]
fn returning_to_neutral_rezeros_all_cursors() {
    // From each pose, the one input that the table maps back to Neutral
    // leaves yaw, pitch and depth at zero once motion settles.
    let cases = [
        (Direction::Forward, Direction::Forward, Pose::Board),
        (Direction::Back, Direction::Back, Pose::Cards),
        (Direction::StrafeLeft, Direction::StrafeRight, Pose::Left),
        (Direction::StrafeRight, Direction::StrafeLeft, Pose::Right),
    ];
    for (enter, leave, pose) in cases {
        let mut s = ControllerState::new();
        s.handle_key(enter);
        settle(&mut s);
        assert_eq!(s.current_pose, pose);
        s.handle_key(leave);
        assert_eq!(s.current_pose, Pose::Neutral);
        settle(&mut s);
        assert_eq!(s.cur_yaw, 0);
        assert_eq!(s.cur_pitch, 0);
        assert_eq!(s.cur_depth, 0);
        assert!(s.is_well_formed());
    }
}

#[test]
fn convergence_is_monotonic_and_bounded() {
    // The pitch distance to target never grows, shrinks by exactly the
    // angular speed while moving, and reaches zero in ceil(900 / 50)
    // = 18 ticks.
    let mut s = ControllerState::new();
    s.handle_key(Direction::Forward);
    let mut last: i32 = (s.target_pitch - s.cur_pitch).abs();
    assert_eq!(last, 900);
    let mut ticks: u32 = 0;
    while s.angular_moving {
        s.step();
        ticks += 1;
        let now = (s.target_pitch - s.cur_pitch).abs();
        assert!(now <= last);
        assert_eq!(now, last - 50);
        last = now;
        assert!(ticks <= 18);
    }
    assert_eq!(ticks, 18);
    assert_eq!(last, 0);
}

#[test]
fn steps_after_arrival_change_nothing() {
    // Once both flags are clear, further ticks leave the cursors alone
    // and command no depth motion.
    let mut s = ControllerState::new();
    s.handle_key(Direction::Back);
    settle(&mut s);
    let before = s;
    for _ in 0..5 {
        let out = s.step();
        assert_eq!(s, before);
        assert_eq!(out.lin_vel, 0);
        assert_eq!(out.yaw, before.cur_yaw);
        assert_eq!(out.pitch, before.cur_pitch);
    }
}

#[test]
fn first_tick_values_toward_left() {
    let mut s = ControllerState::new();
    s.handle_key(Direction::StrafeLeft);
    let out = s.step();
    assert_eq!(out.yaw, 25);
    assert_eq!(out.pitch, 0);
    assert_eq!(out.lin_vel, 50);
    assert_eq!(s.cur_depth, 50);
}

#[test]
fn first_tick_values_toward_right() {
    let mut s = ControllerState::new();
    s.handle_key(Direction::StrafeRight);
    assert_eq!(s.current_pose, Pose::Right);
    assert_eq!(s.target_yaw, -200);
    let out = s.step();
    assert_eq!(out.yaw, -25);
    assert_eq!(out.lin_vel, 50);
}

#[test]
fn cards_moves_no_depth() {
    let mut s = ControllerState::new();
    s.handle_key(Direction::Back);
    assert_eq!(s.current_pose, Pose::Cards);
    assert!(s.angular_moving);
    assert!(!s.linear_moving);
    let out = s.step();
    assert_eq!(out.lin_vel, 0);
    assert_eq!(out.pitch, 25);
    let ticks = settle(&mut s);
    // 20 degrees of pitch at 2.5 per tick: 7 more ticks after the first.
    assert_eq!(ticks, 7);
    assert_eq!(s.cur_pitch, 200);
    assert_eq!(s.cur_depth, 0);
}

#[test]
fn step_toward_clamps_at_target() {
    assert_eq!(step_toward(0, 7, 5), 5);
    assert_eq!(step_toward(5, 7, 5), 7);
    assert_eq!(step_toward(7, 7, 5), 7);
    assert_eq!(step_toward(0, -7, 5), -5);
    assert_eq!(step_toward(-5, -7, 5), -7);
    assert_eq!(step_toward(2400, 0, 200), 2200);
    assert_eq!(step_toward(-100, 100, 200), 100);
}

#[test]
fn transition_table_is_exact() {
    assert_eq!(next_pose(Neutral, Forward), Some(Board));
    assert_eq!(next_pose(Neutral, Back), Some(Cards));
    assert_eq!(next_pose(Neutral, StrafeLeft), Some(Left));
    assert_eq!(next_pose(Neutral, StrafeRight), Some(Right));
    assert_eq!(next_pose(Left, StrafeRight), Some(Neutral));
    assert_eq!(next_pose(Right, StrafeLeft), Some(Neutral));
    assert_eq!(next_pose(Cards, Back), Some(Neutral));
    assert_eq!(next_pose(Board, Forward), Some(Neutral));
    for p in [Left, Right, Cards, Board] {
        let mapped = match p {
            Left => StrafeRight,
            Right => StrafeLeft,
            Cards => Back,
            _ => Forward,
        };
        for d in [Forward, Back, StrafeLeft, StrafeRight] {
            if d != mapped {
                assert_eq!(next_pose(p, d), None);
            }
        }
    }
}

#[test]
fn well_formedness_detects_corruption() {
    let mut s = ControllerState::new();
    assert!(s.is_well_formed());
    s.handle_key(Direction::Forward);
    assert!(s.is_well_formed());
    s.step();
    assert!(s.is_well_formed());

    // A moving flag that disagrees with its cursors is not well formed.
    let mut bad = ControllerState::new();
    bad.angular_moving = true;
    assert!(!bad.is_well_formed());

    // A target away from the committed pose's table entry is not either.
    let mut bad2 = ControllerState::new();
    bad2.target_yaw = 200;
    bad2.cur_yaw = 200;
    assert!(!bad2.is_well_formed());
}
