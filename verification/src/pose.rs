//! Poses, logical input directions, and the transition table.

use vstd::prelude::*;

verus! {

/// A named discrete target orientation/position for the controlled camera.
#[derive(Clone, Copy, Debug, PartialEq, Eq, Structural)]
pub enum Pose {
    Neutral,
    Left,
    Right,
    Cards,
    Board,
}

/// One of the four abstract movement inputs. The host layer maps physical
/// keys (and their arrow-key aliases) onto these before calling in.
#[derive(Clone, Copy, Debug, PartialEq, Eq, Structural)]
pub enum Direction {
    Forward,
    Back,
    StrafeLeft,
    StrafeRight,
}

/// Yaw magnitude of the `Left`/`Right` poses, tenths of a degree.
pub const YAW_SIDE: i32 = 200;
/// Pitch of the `Cards` pose, tenths of a degree.
pub const PITCH_CARDS: i32 = 200;
/// Pitch of the `Board` pose, tenths of a degree.
pub const PITCH_BOARD: i32 = 900;
/// Depth of the `Left`/`Right` poses, tenths of a unit.
pub const DEPTH_SIDE: i32 = 500;
/// Depth of the `Board` pose, tenths of a unit.
pub const DEPTH_BOARD: i32 = 2400;
/// Angular speed while heading to `Neutral`, tenths of a degree per tick.
pub const ANGULAR_SPEED_NEUTRAL: i32 = 10;
/// Angular speed while heading to `Left`, `Right` or `Cards`.
pub const ANGULAR_SPEED_SIDE: i32 = 25;
/// Angular speed while heading to `Board`.
pub const ANGULAR_SPEED_BOARD: i32 = 50;
/// Ordinary linear (depth) speed, tenths of a unit per tick.
pub const LINEAR_SPEED_SLOW: i32 = 50;
/// Linear speed used to and from the far-away `Board` pose.
pub const LINEAR_SPEED_FAST: i32 = 200;

/// Target yaw of a pose, tenths of a degree.
pub open spec fn pose_yaw(p: Pose) -> int {
    match p {
        Pose::Neutral => 0,
        Pose::Left => YAW_SIDE as int,
        Pose::Right => -(YAW_SIDE as int),
        Pose::Cards => 0,
        Pose::Board => 0,
    }
}

/// Target pitch of a pose, tenths of a degree.
pub open spec fn pose_pitch(p: Pose) -> int {
    match p {
        Pose::Neutral => 0,
        Pose::Left => 0,
        Pose::Right => 0,
        Pose::Cards => PITCH_CARDS as int,
        Pose::Board => PITCH_BOARD as int,
    }
}

/// Target depth of a pose, tenths of a unit.
pub open spec fn pose_depth(p: Pose) -> int {
    match p {
        Pose::Neutral => 0,
        Pose::Left => DEPTH_SIDE as int,
        Pose::Right => DEPTH_SIDE as int,
        Pose::Cards => 0,
        Pose::Board => DEPTH_BOARD as int,
    }
}

/// Angular speed of the transition that heads to a pose.
pub open spec fn pose_angular_speed(p: Pose) -> int {
    match p {
        Pose::Neutral => ANGULAR_SPEED_NEUTRAL as int,
        Pose::Left => ANGULAR_SPEED_SIDE as int,
        Pose::Right => ANGULAR_SPEED_SIDE as int,
        Pose::Cards => ANGULAR_SPEED_SIDE as int,
        Pose::Board => ANGULAR_SPEED_BOARD as int,
    }
}

/// The transition table: from a committed pose, a logical direction either
/// selects the next pose or is a no-op (`None`).
pub open spec fn transition_of(p: Pose, d: Direction) -> Option<Pose> {
    match (p, d) {
        (Pose::Neutral, Direction::Forward) => Some(Pose::Board),
        (Pose::Neutral, Direction::Back) => Some(Pose::Cards),
        (Pose::Neutral, Direction::StrafeLeft) => Some(Pose::Left),
        (Pose::Neutral, Direction::StrafeRight) => Some(Pose::Right),
        (Pose::Left, Direction::StrafeRight) => Some(Pose::Neutral),
        (Pose::Right, Direction::StrafeLeft) => Some(Pose::Neutral),
        (Pose::Cards, Direction::Back) => Some(Pose::Neutral),
        (Pose::Board, Direction::Forward) => Some(Pose::Neutral),
        _ => None,
    }
}

/// Looks up the transition table.
pub fn next_pose(p: Pose, d: Direction) -> (r: Option<Pose>)
    ensures
        r == transition_of(p, d),
{
    match (p, d) {
        (Pose::Neutral, Direction::Forward) => Some(Pose::Board),
        (Pose::Neutral, Direction::Back) => Some(Pose::Cards),
        (Pose::Neutral, Direction::StrafeLeft) => Some(Pose::Left),
        (Pose::Neutral, Direction::StrafeRight) => Some(Pose::Right),
        (Pose::Left, Direction::StrafeRight) => Some(Pose::Neutral),
        (Pose::Right, Direction::StrafeLeft) => Some(Pose::Neutral),
        (Pose::Cards, Direction::Back) => Some(Pose::Neutral),
        (Pose::Board, Direction::Forward) => Some(Pose::Neutral),
        _ => None,
    }
}

} // verus!
