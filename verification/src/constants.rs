//! Tuning constants of the match engine.
//!
//! Positions and distances at the interface are in micrometers, angles in
//! microradians, with the origin at the center of the field. The solver
//! operates on those values multiplied by [`UNIT_SCALE`]; constants with the
//! `_INT` suffix are in solver units.
use vstd::prelude::*;

verus! {

/// Scale between interface units and internal solver units.
pub const UNIT_SCALE: i64 = 10;

/// Duration of one tick in milliseconds.
pub const FRAME_DURATION_MS: u64 = 10;

/// Penalty duration in ticks (five seconds).
pub const PENALTY_DURATION: u64 = 5000 / FRAME_DURATION_MS;

/// Full match duration in seconds.
pub const MATCH_DURATION_SECS: u64 = 600;

/// Field length along x, in micrometers.
pub const FIELD_X: i64 = 1_830_000;

/// Field width along y, in micrometers.
pub const FIELD_Y: i64 = 1_220_000;

/// Carpet margin around the field, in micrometers.
pub const MARGIN: i64 = 310_000;

/// Width of a goal mouth, in micrometers.
pub const GOAL_HEIGHT: i64 = 600_000;

/// Radius of the disc enclosing a robot, in micrometers.
pub const ROBOT_RADIUS: i64 = 88_000;

/// Ball radius in micrometers.
pub const BALL_RADIUS: i64 = 21_300;

/// Thickness of a kicker plate, in micrometers.
pub const KICKER_THICKNESS: i64 = 100_000;

/// Distance from a robot's center to the center of its retracted kicker,
/// along the robot's forward axis, in micrometers.
pub const KICKER_OFFSET: i64 = 126_208;

/// Boundary-restart dot, x coordinate in micrometers.
pub const DOT_X: i64 = 457_500;

/// Boundary-restart dot, y coordinate in micrometers.
pub const DOT_Y: i64 = 305_000;

/// Maximum linear robot speed, in micrometers per second.
pub const MAX_SPEED: i64 = 550_000;

/// Maximum angular robot speed, in microradians per second.
pub const MAX_ANGULAR_SPEED: i64 = 100_000;

/// Robot-to-ball distance above which the robot counts as away from the
/// ball, in micrometers.
pub const BALL_ABUSE_RADIUS: i64 = 250_000;

/// Number of ticks a robot may stay in possession of the ball before it is
/// penalized.
pub const BALL_ABUSE_TIME: u64 = 500;

/// Number of ticks a kicker stays extended after a kick.
pub const KICK_TICKS: u64 = 10;

/// Full kick strength: requests are in millionths of it and are saturated
/// into `[0, KICK_MAX]` at ingress.
pub const KICK_MAX: i64 = 1_000_000;

/// One pi in microradians.
pub const PI_URAD: i64 = 3_141_593;

/// Half pi in microradians.
pub const HALF_PI_URAD: i64 = 1_570_796;

/// Two pi in microradians.
pub const TWO_PI_URAD: i64 = 6_283_185;

/// Fixed-point scale of cosine and sine observations: the value one.
pub const COS_ONE: i64 = 1_000_000;

/// Proportional gain of the return-to-spot controller, in tenths.
pub const SPOT_GAIN_TENTHS: i64 = 3;

/// Number of penalty spots.
pub const NUM_PENALTY_SPOTS: usize = 6;

/// Bound on every coordinate the interface accepts, in micrometers.
pub const POS_LIMIT: i64 = 100_000_000;

/// Bound on every coordinate the mirror accepts, in solver units.
pub const POS_LIMIT_INT: i64 = 1_000_000_000;

/// Bound on every stored command component, in interface units per second.
pub const CMD_LIMIT: i64 = 2_000_000_000;

/// Bound on every orientation the mirror accepts, in microradians.
pub const ORIENT_LIMIT: i64 = 4_000_000;

/// Field length in solver units.
pub const FIELD_X_INT: i64 = FIELD_X * UNIT_SCALE;

/// Field width in solver units.
pub const FIELD_Y_INT: i64 = FIELD_Y * UNIT_SCALE;

/// Goal mouth width in solver units.
pub const GOAL_HEIGHT_INT: i64 = GOAL_HEIGHT * UNIT_SCALE;

/// Robot radius in solver units.
pub const ROBOT_RADIUS_INT: i64 = ROBOT_RADIUS * UNIT_SCALE;

/// Ball radius in solver units.
pub const BALL_RADIUS_INT: i64 = BALL_RADIUS * UNIT_SCALE;

/// Kicker offset in solver units.
pub const KICKER_OFFSET_INT: i64 = KICKER_OFFSET * UNIT_SCALE;

/// Boundary-restart dot, x coordinate in solver units.
pub const DOT_X_INT: i64 = DOT_X * UNIT_SCALE;

/// Boundary-restart dot, y coordinate in solver units.
pub const DOT_Y_INT: i64 = DOT_Y * UNIT_SCALE;

/// Maximum linear robot speed in solver units per second.
pub const MAX_SPEED_INT: i64 = MAX_SPEED * UNIT_SCALE;

/// Maximum angular robot speed in solver units per second.
pub const MAX_ANGULAR_SPEED_INT: i64 = MAX_ANGULAR_SPEED * UNIT_SCALE;

/// Possession radius in solver units.
pub const BALL_ABUSE_RADIUS_INT: i64 = BALL_ABUSE_RADIUS * UNIT_SCALE;

/// Default x coordinate of each robot at kickoff, in micrometers.
pub open spec fn default_robot_x(i: int) -> int {
    if i == 0 {
        -915_000
    } else if i == 1 {
        -457_500
    } else if i == 2 {
        457_500
    } else {
        915_000
    }
}

/// Default orientation of each robot at kickoff, in microradians.
pub open spec fn default_robot_angle(i: int) -> int {
    if i < 2 {
        0
    } else {
        PI_URAD as int
    }
}

/// Position of a penalty spot, in micrometers. The first three spots sit on
/// the top margin, the other three on the bottom margin.
pub open spec fn spot_pos_spec(i: int) -> (int, int) {
    let x: int = if i == 0 || i == 3 {
        -457_500
    } else if i == 1 || i == 4 {
        0
    } else {
        457_500
    };
    let y: int = if i < 3 {
        765_000
    } else {
        -765_000
    };
    (x, y)
}

/// Orientation a penalized robot is steered to, in microradians: the first
/// three spots face the field from above, the others from below.
pub open spec fn spot_angle_spec(i: int) -> int {
    if i < 3 {
        HALF_PI_URAD as int
    } else {
        -(HALF_PI_URAD as int)
    }
}

/// Returns the position of penalty spot `i`, in micrometers.
pub fn penalty_spot(i: usize) -> (p: (i64, i64))
    requires
        i < NUM_PENALTY_SPOTS,
    ensures
        p.0 == spot_pos_spec(i as int).0,
        p.1 == spot_pos_spec(i as int).1,
{
    let x: i64 = if i == 0 || i == 3 {
        -457_500
    } else if i == 1 || i == 4 {
        0
    } else {
        457_500
    };
    let y: i64 = if i < 3 {
        765_000
    } else {
        -765_000
    };
    (x, y)
}

/// Returns the orientation of penalty spot `i`, in microradians.
pub fn penalty_spot_angle(i: usize) -> (a: i64)
    requires
        i < NUM_PENALTY_SPOTS,
    ensures
        a == spot_angle_spec(i as int),
{
    if i < 3 {
        HALF_PI_URAD
    } else {
        -HALF_PI_URAD
    }
}

} // verus!
