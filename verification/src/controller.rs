//! The executable controller: key handling and the per-tick step, each
//! proved to follow the model in `model`.

use vstd::math::abs;
use vstd::prelude::*;

use crate::model::enter_pose_model;
use crate::model::initial_model;
use crate::model::spec_handle_key;
use crate::model::spec_lin_vel;
use crate::model::spec_step;
use crate::model::step_toward_spec;
use crate::model::CameraModel;
use crate::model::CURSOR_BOUND;
use crate::pose::next_pose;
use crate::pose::transition_of;
use crate::pose::Direction;
use crate::pose::Pose;
use crate::pose::ANGULAR_SPEED_BOARD;
use crate::pose::ANGULAR_SPEED_NEUTRAL;
use crate::pose::ANGULAR_SPEED_SIDE;
use crate::pose::DEPTH_BOARD;
use crate::pose::DEPTH_SIDE;
use crate::pose::LINEAR_SPEED_FAST;
use crate::pose::LINEAR_SPEED_SLOW;
use crate::pose::PITCH_BOARD;
use crate::pose::PITCH_CARDS;
use crate::pose::YAW_SIDE;

verus! {

/// The pose controller of one player-driven camera. Angles are tenths
/// of a degree, depths tenths of a world unit.
#[derive(Clone, Copy, Debug, PartialEq, Eq, Structural)]
pub struct ControllerState {
    /// Last committed pose.
    pub current_pose: Pose,
    /// Destination yaw of the active (or last) transition.
    pub target_yaw: i32,
    /// Destination pitch.
    pub target_pitch: i32,
    /// Yaw interpolation cursor.
    pub cur_yaw: i32,
    /// Pitch interpolation cursor.
    pub cur_pitch: i32,
    /// Angular step size per tick.
    pub angular_speed: i32,
    /// True while an angular cursor is away from its target.
    pub angular_moving: bool,
    /// Destination depth.
    pub target_depth: i32,
    /// Depth interpolation cursor.
    pub cur_depth: i32,
    /// Depth step size per tick.
    pub linear_speed: i32,
    /// True while the depth cursor is away from its target.
    pub linear_moving: bool,
}

impl View for ControllerState {
    type V = CameraModel;

    open spec fn view(&self) -> CameraModel {
        CameraModel {
            pose: self.current_pose,
            target_yaw: self.target_yaw as int,
            target_pitch: self.target_pitch as int,
            cur_yaw: self.cur_yaw as int,
            cur_pitch: self.cur_pitch as int,
            angular_speed: self.angular_speed as int,
            angular_moving: self.angular_moving,
            target_depth: self.target_depth as int,
            cur_depth: self.cur_depth as int,
            linear_speed: self.linear_speed as int,
            linear_moving: self.linear_moving,
        }
    }
}

/// What one tick tells the host to do: a depth-axis velocity for the
/// rigid body and the orientation, after this tick's motion, for the
/// camera node.
#[derive(Clone, Copy, Debug, PartialEq, Eq, Structural)]
pub struct StepOutput {
    /// Signed depth-axis linear velocity, tenths of a unit per tick;
    /// zero when the depth axis is idle.
    pub lin_vel: i32,
    /// Post-step yaw, tenths of a degree.
    pub yaw: i32,
    /// Post-step pitch, tenths of a degree.
    pub pitch: i32,
}

/// One clamped step of a cursor toward a target: move by `speed` but
/// never past `target`. Shared by the yaw, pitch and depth axes.
pub fn step_toward(cur: i32, target: i32, speed: i32) -> (r: i32)
    requires
        0 < speed <= LINEAR_SPEED_FAST,
        -CURSOR_BOUND <= cur <= CURSOR_BOUND,
        -CURSOR_BOUND <= target <= CURSOR_BOUND,
    ensures
        r == step_toward_spec(cur as int, target as int, speed as int),
        -CURSOR_BOUND <= r <= CURSOR_BOUND,
        abs(target as int - r as int) <= abs(target as int - cur as int),
{
    if cur < target {
        if target - cur <= speed {
            target
        } else {
            cur + speed
        }
    } else {
        if cur - target <= speed {
            target
        } else {
            cur - speed
        }
    }
}

impl ControllerState {
    /// A fresh controller: `Neutral`, idle, everything at zero.
    pub fn new() -> (s: ControllerState)
        ensures
            s@ == initial_model(),
            s@.wf(),
    {
        ControllerState {
            current_pose: Pose::Neutral,
            target_yaw: 0,
            target_pitch: 0,
            cur_yaw: 0,
            cur_pitch: 0,
            angular_speed: ANGULAR_SPEED_NEUTRAL,
            angular_moving: false,
            target_depth: 0,
            cur_depth: 0,
            linear_speed: LINEAR_SPEED_SLOW,
            linear_moving: false,
        }
    }

    /// Puts the controller back in its starting state.
    pub fn reset(&mut self)
        ensures
            final(self)@ == initial_model(),
            final(self)@.wf(),
    {
        *self = ControllerState::new();
    }

    /// Runtime well-formedness test, for callers outside the proof.
    pub fn is_well_formed(&self) -> (r: bool)
        ensures
            r == self@.wf(),
    {
        let targets_ok: bool = match self.current_pose {
            Pose::Neutral => self.target_yaw == 0 && self.target_pitch == 0 && self.target_depth
                == 0 && self.angular_speed == ANGULAR_SPEED_NEUTRAL,
            Pose::Left => self.target_yaw == YAW_SIDE && self.target_pitch == 0
                && self.target_depth == DEPTH_SIDE && self.angular_speed == ANGULAR_SPEED_SIDE,
            Pose::Right => self.target_yaw == -YAW_SIDE && self.target_pitch == 0
                && self.target_depth == DEPTH_SIDE && self.angular_speed == ANGULAR_SPEED_SIDE,
            Pose::Cards => self.target_yaw == 0 && self.target_pitch == PITCH_CARDS
                && self.target_depth == 0 && self.angular_speed == ANGULAR_SPEED_SIDE,
            Pose::Board => self.target_yaw == 0 && self.target_pitch == PITCH_BOARD
                && self.target_depth == DEPTH_BOARD && self.angular_speed == ANGULAR_SPEED_BOARD,
        };
        targets_ok && (self.linear_speed == LINEAR_SPEED_SLOW || self.linear_speed
            == LINEAR_SPEED_FAST) && (self.angular_moving == !(self.cur_yaw == self.target_yaw
            && self.cur_pitch == self.target_pitch)) && (self.linear_moving == (self.cur_depth
            != self.target_depth)) && -CURSOR_BOUND <= self.cur_yaw && self.cur_yaw <= CURSOR_BOUND
            && -CURSOR_BOUND <= self.cur_pitch && self.cur_pitch <= CURSOR_BOUND && -CURSOR_BOUND
            <= self.cur_depth && self.cur_depth <= CURSOR_BOUND
    }

    /// Commits a transition into pose `p`: cursors restart from the old
    /// targets, new targets and speeds come from the pose table, and the
    /// axes with ground to cover start moving.
    pub fn enter_pose(&mut self, p: Pose)
        requires
            old(self)@.wf(),
            !old(self)@.angular_moving,
            !old(self)@.linear_moving,
            p != old(self)@.pose,
        ensures
            final(self)@ == enter_pose_model(old(self)@, p),
            final(self)@.wf(),
    {
        self.cur_yaw = self.target_yaw;
        self.cur_pitch = self.target_pitch;
        self.cur_depth = self.target_depth;
        let leaving_board: bool = match self.current_pose {
            Pose::Board => true,
            _ => false,
        };
        match p {
            Pose::Neutral => {
                self.target_yaw = 0;
                self.target_pitch = 0;
                self.target_depth = 0;
                self.angular_speed = ANGULAR_SPEED_NEUTRAL;
                self.linear_speed = if leaving_board {
                    LINEAR_SPEED_FAST
                } else {
                    LINEAR_SPEED_SLOW
                };
            },
            Pose::Left => {
                self.target_yaw = YAW_SIDE;
                self.target_pitch = 0;
                self.target_depth = DEPTH_SIDE;
                self.angular_speed = ANGULAR_SPEED_SIDE;
                self.linear_speed = LINEAR_SPEED_SLOW;
            },
            Pose::Right => {
                self.target_yaw = -YAW_SIDE;
                self.target_pitch = 0;
                self.target_depth = DEPTH_SIDE;
                self.angular_speed = ANGULAR_SPEED_SIDE;
                self.linear_speed = LINEAR_SPEED_SLOW;
            },
            Pose::Cards => {
                self.target_yaw = 0;
                self.target_pitch = PITCH_CARDS;
                self.target_depth = 0;
                self.angular_speed = ANGULAR_SPEED_SIDE;
            },
            Pose::Board => {
                self.target_yaw = 0;
                self.target_pitch = PITCH_BOARD;
                self.target_depth = DEPTH_BOARD;
                self.angular_speed = ANGULAR_SPEED_BOARD;
                self.linear_speed = LINEAR_SPEED_FAST;
            },
        }
        self.current_pose = p;
        self.angular_moving = true;
        self.linear_moving = self.cur_depth != self.target_depth;
    }

    /// Interprets one logical key: dropped while a transition is in
    /// flight (non-preemption) or when the table has no entry for it;
    /// otherwise the matching transition is committed.
    pub fn handle_key(&mut self, d: Direction)
        requires
            old(self)@.wf(),
        ensures
            final(self)@ == spec_handle_key(old(self)@, d),
            final(self)@.wf(),
            old(self)@.angular_moving || old(self)@.linear_moving ==> *final(self) == *old(self),
            transition_of(old(self)@.pose, d) is None ==> *final(self) == *old(self),
    {
        if self.angular_moving || self.linear_moving {
            return ;
        }
        match next_pose(self.current_pose, d) {
            Some(p) => {
                self.enter_pose(p);
            },
            None => {},
        }
    }

    /// One simulation tick: each active axis takes one clamped step and
    /// its `moving` flag clears on the tick of arrival; the result says
    /// what to command of the host. The distance of every cursor to its
    /// target never grows.
    pub fn step(&mut self) -> (out: StepOutput)
        requires
            old(self)@.wf(),
        ensures
            final(self)@ == spec_step(old(self)@),
            final(self)@.wf(),
            out.lin_vel == spec_lin_vel(old(self)@),
            out.yaw == final(self)@.cur_yaw,
            out.pitch == final(self)@.cur_pitch,
            final(self)@.pose == old(self)@.pose,
            abs(final(self)@.target_yaw - final(self)@.cur_yaw) <= abs(
                old(self)@.target_yaw - old(self)@.cur_yaw,
            ),
            abs(final(self)@.target_pitch - final(self)@.cur_pitch) <= abs(
                old(self)@.target_pitch - old(self)@.cur_pitch,
            ),
            abs(final(self)@.target_depth - final(self)@.cur_depth) <= abs(
                old(self)@.target_depth - old(self)@.cur_depth,
            ),
    {
        let mut lin_vel: i32 = 0;
        if self.linear_moving {
            lin_vel = if self.cur_depth < self.target_depth {
                self.linear_speed
            } else {
                -self.linear_speed
            };
            self.cur_depth = step_toward(self.cur_depth, self.target_depth, self.linear_speed);
            if self.cur_depth == self.target_depth {
                self.linear_moving = false;
            }
        }
        if self.angular_moving {
            self.cur_yaw = step_toward(self.cur_yaw, self.target_yaw, self.angular_speed);
            self.cur_pitch = step_toward(self.cur_pitch, self.target_pitch, self.angular_speed);
            if self.cur_yaw == self.target_yaw && self.cur_pitch == self.target_pitch {
                self.angular_moving = false;
            }
        }
        StepOutput { lin_vel, yaw: self.cur_yaw, pitch: self.cur_pitch }
    }
}

impl Default for ControllerState {
    /// Same state as `new`.
    fn default() -> (s: ControllerState)
        ensures
            s@ == initial_model(),
            s@.wf(),
    {
        ControllerState::new()
    }
}

} // verus!
