//! The controller's laws: properties of the model over whole runs,
//! proved once and for all. `spec_steps` iterates the per-tick
//! transition; the lemmas below state how runs behave.

use vstd::math::abs;
use vstd::prelude::*;

use crate::model::spec_handle_key;
use crate::model::spec_lin_vel;
use crate::model::spec_step;
use crate::model::CameraModel;
use crate::pose::transition_of;
use crate::pose::Direction;
use crate::pose::Pose;

verus! {

/// The model after `n` ticks with no intervening input.
pub open spec fn spec_steps(m: CameraModel, n: nat) -> CameraModel
    decreases n,
{
    if n == 0 {
        m
    } else {
        spec_step(spec_steps(m, (n - 1) as nat))
    }
}

/// One tick keeps the state well formed and touches neither the pose,
/// the targets nor the speeds; no cursor's distance to its target grows.
pub proof fn lemma_step_preserves_wf(m: CameraModel)
    requires
        m.wf(),
    ensures
        spec_step(m).wf(),
        spec_step(m).pose == m.pose,
        spec_step(m).target_yaw == m.target_yaw,
        spec_step(m).target_pitch == m.target_pitch,
        spec_step(m).target_depth == m.target_depth,
        spec_step(m).angular_speed == m.angular_speed,
        spec_step(m).linear_speed == m.linear_speed,
        abs(spec_step(m).target_yaw - spec_step(m).cur_yaw) <= abs(m.target_yaw - m.cur_yaw),
        abs(spec_step(m).target_pitch - spec_step(m).cur_pitch) <= abs(
            m.target_pitch - m.cur_pitch,
        ),
        abs(spec_step(m).target_depth - spec_step(m).cur_depth) <= abs(
            m.target_depth - m.cur_depth,
        ),
{
}

/// A whole run keeps the state well formed and touches neither the
/// pose, the targets nor the speeds.
pub proof fn lemma_steps_preserve_wf(m: CameraModel, n: nat)
    requires
        m.wf(),
    ensures
        spec_steps(m, n).wf(),
        spec_steps(m, n).pose == m.pose,
        spec_steps(m, n).target_yaw == m.target_yaw,
        spec_steps(m, n).target_pitch == m.target_pitch,
        spec_steps(m, n).target_depth == m.target_depth,
        spec_steps(m, n).angular_speed == m.angular_speed,
        spec_steps(m, n).linear_speed == m.linear_speed,
    decreases n,
{
    if n > 0 {
        lemma_steps_preserve_wf(m, (n - 1) as nat);
        lemma_step_preserves_wf(spec_steps(m, (n - 1) as nat));
    }
}

/// Stepping a run one tick further is the same as starting the run one
/// tick in.
pub proof fn lemma_steps_shift(m: CameraModel, n: nat)
    requires
        n >= 1,
    ensures
        spec_steps(m, n) == spec_steps(spec_step(m), (n - 1) as nat),
    decreases n,
{
    if n == 1 {
        assert(spec_steps(m, 1) == spec_step(spec_steps(m, 0)));
        assert(spec_steps(spec_step(m), 0) == spec_step(m));
    } else {
        let k = (n - 1) as nat;
        lemma_steps_shift(m, k);
        assert(spec_steps(m, n) == spec_step(spec_steps(m, k)));
        assert(spec_steps(spec_step(m), k) == spec_step(spec_steps(spec_step(m), (k - 1) as nat)));
    }
}

/// Idempotence of arrival: once both axis groups have settled, a tick
/// changes nothing and commands no depth motion.
pub proof fn lemma_arrival_idempotent(m: CameraModel)
    requires
        m.wf(),
        !m.angular_moving,
        !m.linear_moving,
    ensures
        spec_step(m) == m,
        spec_lin_vel(m) == 0,
{
}

/// Once the angular axes alone have settled, further ticks leave yaw
/// and pitch unchanged, whatever the depth axis is still doing.
pub proof fn lemma_angular_arrival_idempotent(m: CameraModel)
    requires
        m.wf(),
        !m.angular_moving,
    ensures
        spec_step(m).cur_yaw == m.cur_yaw,
        spec_step(m).cur_pitch == m.cur_pitch,
{
}

/// Monotonic convergence of the angular axes: once the run is long
/// enough that its total travel covers both initial angular distances,
/// the cursors sit on their targets and angular motion has stopped.
/// (Each single tick's non-increase is an `ensures` of `step`.)
pub proof fn lemma_angular_converges(m: CameraModel, n: nat)
    requires
        m.wf(),
        n * m.angular_speed >= abs(m.target_yaw - m.cur_yaw),
        n * m.angular_speed >= abs(m.target_pitch - m.cur_pitch),
    ensures
        spec_steps(m, n).angular_arrived(),
        !spec_steps(m, n).angular_moving,
    decreases n,
{
    if n == 0 {
        assert(n * m.angular_speed == 0) by (nonlinear_arith)
            requires
                n == 0,
        ;
    } else {
        let m1 = spec_step(m);
        lemma_step_preserves_wf(m);
        assert((n - 1) * m.angular_speed == n * m.angular_speed - m.angular_speed)
            by (nonlinear_arith);
        lemma_angular_converges(m1, (n - 1) as nat);
        lemma_steps_shift(m, n);
    }
}

/// Monotonic convergence of the depth axis, in the same terms.
pub proof fn lemma_linear_converges(m: CameraModel, n: nat)
    requires
        m.wf(),
        n * m.linear_speed >= abs(m.target_depth - m.cur_depth),
    ensures
        spec_steps(m, n).linear_arrived(),
        !spec_steps(m, n).linear_moving,
    decreases n,
{
    if n == 0 {
        assert(n * m.linear_speed == 0) by (nonlinear_arith)
            requires
                n == 0,
        ;
    } else {
        let m1 = spec_step(m);
        lemma_step_preserves_wf(m);
        assert((n - 1) * m.linear_speed == n * m.linear_speed - m.linear_speed)
            by (nonlinear_arith);
        lemma_linear_converges(m1, (n - 1) as nat);
        lemma_steps_shift(m, n);
    }
}

/// A key accepted in an idle state leaves a well-formed state whose
/// committed pose is the one the transition table names.
pub proof fn lemma_handle_key_wf(m: CameraModel, d: Direction)
    requires
        m.wf(),
    ensures
        spec_handle_key(m, d).wf(),
        (!m.angular_moving && !m.linear_moving && transition_of(m.pose, d) is Some)
            ==> spec_handle_key(m, d).pose == transition_of(m.pose, d).unwrap(),
{
}

/// Return to origin: from any idle pose, the one input that the table
/// maps back to `Neutral`, followed by any run that ends with both
/// `moving` flags clear, leaves yaw, pitch and depth all at zero.
pub proof fn lemma_return_to_neutral(m: CameraModel, d: Direction, n: nat)
    requires
        m.wf(),
        !m.angular_moving,
        !m.linear_moving,
        transition_of(m.pose, d) == Some(Pose::Neutral),
        !spec_steps(spec_handle_key(m, d), n).angular_moving,
        !spec_steps(spec_handle_key(m, d), n).linear_moving,
    ensures
        spec_steps(spec_handle_key(m, d), n).cur_yaw == 0,
        spec_steps(spec_handle_key(m, d), n).cur_pitch == 0,
        spec_steps(spec_handle_key(m, d), n).cur_depth == 0,
{
    lemma_handle_key_wf(m, d);
    lemma_steps_preserve_wf(spec_handle_key(m, d), n);
}

/// Return to origin, with a concrete bound: after the returning input,
/// ninety ticks always suffice to settle at zero (the slowest case is
/// leaving `Board`, 90 degrees of pitch at 1 degree per tick).
pub proof fn lemma_return_to_neutral_settles(m: CameraModel, d: Direction, n: nat)
    requires
        m.wf(),
        !m.angular_moving,
        !m.linear_moving,
        transition_of(m.pose, d) == Some(Pose::Neutral),
        n >= 90,
    ensures
        !spec_steps(spec_handle_key(m, d), n).angular_moving,
        !spec_steps(spec_handle_key(m, d), n).linear_moving,
        spec_steps(spec_handle_key(m, d), n).cur_yaw == 0,
        spec_steps(spec_handle_key(m, d), n).cur_pitch == 0,
        spec_steps(spec_handle_key(m, d), n).cur_depth == 0,
{
    let m1 = spec_handle_key(m, d);
    lemma_handle_key_wf(m, d);
    assert(n * m1.angular_speed >= 900) by (nonlinear_arith)
        requires
            n >= 90,
            m1.angular_speed == 10,
    ;
    assert(n * m1.linear_speed >= 2400) by (nonlinear_arith)
        requires
            n >= 90,
            m1.linear_speed >= 50,
    ;
    lemma_angular_converges(m1, n);
    lemma_linear_converges(m1, n);
    lemma_return_to_neutral(m, d, n);
}

} // verus!
