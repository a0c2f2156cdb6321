//! The mathematical model of the controller: an all-integer ghost state
//! and the pure transition functions that the executable code is proved
//! against.

use vstd::math::abs;
use vstd::prelude::*;

use crate::pose::Direction;
use crate::pose::Pose;
use crate::pose::pose_angular_speed;
use crate::pose::pose_depth;
use crate::pose::pose_pitch;
use crate::pose::pose_yaw;
use crate::pose::transition_of;
use crate::pose::LINEAR_SPEED_FAST;
use crate::pose::LINEAR_SPEED_SLOW;

verus! {

/// Every interpolation cursor stays within this many tenths of the
/// origin: the farthest pose target (the `Board` depth) is 2400.
pub const CURSOR_BOUND: i32 = 2400;

/// Abstract controller state: the view of the executable state.
pub ghost struct CameraModel {
    /// Last committed pose; changes when a transition starts, not when it ends.
    pub pose: Pose,
    /// Destination yaw of the active (or last) transition, tenths of a degree.
    pub target_yaw: int,
    /// Destination pitch, tenths of a degree.
    pub target_pitch: int,
    /// Yaw interpolation cursor; equals `target_yaw` when idle.
    pub cur_yaw: int,
    /// Pitch interpolation cursor.
    pub cur_pitch: int,
    /// Step size for the angular axes, tenths of a degree per tick.
    pub angular_speed: int,
    /// True while either angular cursor has not reached its target.
    pub angular_moving: bool,
    /// Destination depth, tenths of a unit.
    pub target_depth: int,
    /// Depth interpolation cursor.
    pub cur_depth: int,
    /// Step size for the depth axis, tenths of a unit per tick.
    pub linear_speed: int,
    /// True while the depth cursor has not reached its target.
    pub linear_moving: bool,
}

impl CameraModel {
    /// Both angular cursors sit on their targets.
    pub open spec fn angular_arrived(self) -> bool {
        self.cur_yaw == self.target_yaw && self.cur_pitch == self.target_pitch
    }

    /// The depth cursor sits on its target.
    pub open spec fn linear_arrived(self) -> bool {
        self.cur_depth == self.target_depth
    }

    /// Well-formedness: targets and the angular speed are the committed
    /// pose's table entries, each `moving` flag holds exactly while its
    /// cursors are away from their targets, and all cursors are bounded.
    pub open spec fn wf(self) -> bool {
        &&& self.target_yaw == pose_yaw(self.pose)
        &&& self.target_pitch == pose_pitch(self.pose)
        &&& self.target_depth == pose_depth(self.pose)
        &&& self.angular_speed == pose_angular_speed(self.pose)
        &&& (self.linear_speed == LINEAR_SPEED_SLOW || self.linear_speed == LINEAR_SPEED_FAST)
        &&& self.angular_moving == !self.angular_arrived()
        &&& self.linear_moving == !self.linear_arrived()
        &&& -(CURSOR_BOUND as int) <= self.cur_yaw <= CURSOR_BOUND as int
        &&& -(CURSOR_BOUND as int) <= self.cur_pitch <= CURSOR_BOUND as int
        &&& -(CURSOR_BOUND as int) <= self.cur_depth <= CURSOR_BOUND as int
    }
}

/// The state the controller starts (and restarts) in: `Neutral`, idle,
/// all cursors and targets at zero.
pub open spec fn initial_model() -> CameraModel {
    CameraModel {
        pose: Pose::Neutral,
        target_yaw: 0,
        target_pitch: 0,
        cur_yaw: 0,
        cur_pitch: 0,
        angular_speed: pose_angular_speed(Pose::Neutral),
        angular_moving: false,
        target_depth: 0,
        cur_depth: 0,
        linear_speed: LINEAR_SPEED_SLOW as int,
        linear_moving: false,
    }
}

/// One clamped step of a cursor toward its target: move by `speed`, but
/// never past the target; snap to the target when a step would overshoot.
pub open spec fn step_toward_spec(cur: int, target: int, speed: int) -> int {
    if abs(target - cur) <= speed {
        target
    } else if cur < target {
        cur + speed
    } else {
        cur - speed
    }
}

/// Linear speed of a transition from pose `from` into pose `to`:
/// `Neutral` is approached fast only when leaving `Board`; `Cards` moves
/// no depth and keeps the previous speed.
pub open spec fn transition_linear_speed(from: Pose, to: Pose, old_speed: int) -> int {
    match to {
        Pose::Neutral => if from is Board {
            LINEAR_SPEED_FAST as int
        } else {
            LINEAR_SPEED_SLOW as int
        },
        Pose::Left => LINEAR_SPEED_SLOW as int,
        Pose::Right => LINEAR_SPEED_SLOW as int,
        Pose::Cards => old_speed,
        Pose::Board => LINEAR_SPEED_FAST as int,
    }
}

/// Committing a transition into pose `p`: the cursors restart from the
/// previous targets, the new targets and speeds come from the pose
/// table, and the axes that now have ground to cover are set moving.
pub open spec fn enter_pose_model(m: CameraModel, p: Pose) -> CameraModel {
    CameraModel {
        pose: p,
        cur_yaw: m.target_yaw,
        cur_pitch: m.target_pitch,
        cur_depth: m.target_depth,
        target_yaw: pose_yaw(p),
        target_pitch: pose_pitch(p),
        target_depth: pose_depth(p),
        angular_speed: pose_angular_speed(p),
        angular_moving: true,
        linear_speed: transition_linear_speed(m.pose, p, m.linear_speed),
        linear_moving: pose_depth(p) != m.target_depth,
    }
}

/// Effect of one logical key: dropped while a transition is in flight
/// or when the table has no entry; otherwise the transition is committed.
pub open spec fn spec_handle_key(m: CameraModel, d: Direction) -> CameraModel {
    if m.angular_moving || m.linear_moving {
        m
    } else {
        match transition_of(m.pose, d) {
            Some(p) => enter_pose_model(m, p),
            None => m,
        }
    }
}

/// Effect of one tick on the state: each active axis takes one clamped
/// step, and a `moving` flag clears on the tick its cursors arrive.
pub open spec fn spec_step(m: CameraModel) -> CameraModel {
    let new_depth = if m.linear_moving {
        step_toward_spec(m.cur_depth, m.target_depth, m.linear_speed)
    } else {
        m.cur_depth
    };
    let new_yaw = if m.angular_moving {
        step_toward_spec(m.cur_yaw, m.target_yaw, m.angular_speed)
    } else {
        m.cur_yaw
    };
    let new_pitch = if m.angular_moving {
        step_toward_spec(m.cur_pitch, m.target_pitch, m.angular_speed)
    } else {
        m.cur_pitch
    };
    CameraModel {
        cur_depth: new_depth,
        linear_moving: m.linear_moving && new_depth != m.target_depth,
        cur_yaw: new_yaw,
        cur_pitch: new_pitch,
        angular_moving: m.angular_moving && !(new_yaw == m.target_yaw && new_pitch
            == m.target_pitch),
        ..m
    }
}

/// The depth-axis velocity command a tick emits: the linear speed signed
/// toward the target while the depth axis is active, zero otherwise.
pub open spec fn spec_lin_vel(m: CameraModel) -> int {
    if m.linear_moving {
        if m.cur_depth < m.target_depth {
            m.linear_speed
        } else {
            -m.linear_speed
        }
    } else {
        0
    }
}

} // verus!
