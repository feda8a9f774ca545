//! The command-to-motion mapping: translates one robot's velocity target
//! into world-frame linear and angular velocity for the solver, respecting
//! the speed limits and the robot-local frame rotation.
use vstd::prelude::*;

use crate::constants::{CMD_LIMIT, COS_ONE, MAX_ANGULAR_SPEED_INT, MAX_SPEED_INT, UNIT_SCALE};
use crate::game_state::CommandTarget;
use crate::maths::{abs_spec, clamp_spec, isqrt_u128};
use crate::simulation::AngleObs;

verus! {

/// `r` is the integer square root of `n` rounded down.
pub open spec fn is_sqrt_floor(n: int, r: int) -> bool {
    &&& 0 <= r
    &&& r * r <= n
    &&& n < (r + 1) * (r + 1)
}

/// The integer square root of `n`, rounded down.
pub open spec fn floor_sqrt(n: int) -> int {
    choose|r: int| is_sqrt_floor(n, r)
}

/// The floor square root is what `is_sqrt_floor` describes, and unique.
pub proof fn lemma_floor_sqrt(n: int, r: int)
    requires
        is_sqrt_floor(n, r),
    ensures
        floor_sqrt(n) == r,
{
    assert(exists|x: int| is_sqrt_floor(n, x));
    let rp = floor_sqrt(n);
    assert(is_sqrt_floor(n, rp));
    assert(rp == r) by (nonlinear_arith)
        requires
            is_sqrt_floor(n, rp),
            is_sqrt_floor(n, r),
    ;
}

/// `|w| * speed / denom`, rounded toward zero, with the sign of `w`.
pub open spec fn signed_scale_spec(w: int, speed: int, denom: int) -> int {
    let mag = abs_spec(w) * speed / denom;
    if w < 0 {
        -mag
    } else {
        mag
    }
}

/// Scales `w` by `speed / denom`, rounding the magnitude toward zero.
pub(crate) fn signed_scale(w: i128, speed: i128, denom: i128) -> (r: i64)
    requires
        denom > 0,
        0 <= speed <= 20_000_000,
        abs_spec(w as int) <= 2 * denom,
        denom <= 0x10000000000000000,
    ensures
        r == signed_scale_spec(w as int, speed as int, denom as int),
        abs_spec(r as int) <= 2 * speed,
{
    let aw: i128 = if w < 0 {
        -w
    } else {
        w
    };
    proof {
        assert((aw as int) * (speed as int) / (denom as int) <= 2 * (speed as int) && (aw as int)
            * (speed as int) >= 0 && (aw as int) * (speed as int)
            <= 0x2000000000000000000000000) by (nonlinear_arith)
            requires
                0 <= aw as int <= 2 * (denom as int),
                0 < denom as int <= 0x10000000000000000,
                0 <= speed as int <= 20_000_000,
        ;
    }
    let mag: i128 = aw * speed / denom;
    let r128: i128 = if w < 0 {
        -mag
    } else {
        mag
    };
    r128 as i64
}

/// The world-frame linear velocity the mapper gives a robot, x component:
/// the command vector is scaled to solver units, its length is capped at
/// the speed limit, and it is rotated from the robot-local frame into the
/// world frame by the robot's current orientation (given as fixed-point
/// cosine `c` and sine `s`).
pub open spec fn mapped_linvel_x_spec(cx: int, cy: int, c: int, s: int) -> int {
    let xi = cx * UNIT_SCALE;
    let yi = cy * UNIT_SCALE;
    let norm = floor_sqrt(xi * xi + yi * yi);
    if norm == 0 {
        0
    } else {
        let speed = if norm > MAX_SPEED_INT {
            MAX_SPEED_INT as int
        } else {
            norm
        };
        signed_scale_spec(c * xi - s * yi, speed, norm * COS_ONE)
    }
}

/// The world-frame linear velocity the mapper gives a robot, y component.
pub open spec fn mapped_linvel_y_spec(cx: int, cy: int, c: int, s: int) -> int {
    let xi = cx * UNIT_SCALE;
    let yi = cy * UNIT_SCALE;
    let norm = floor_sqrt(xi * xi + yi * yi);
    if norm == 0 {
        0
    } else {
        let speed = if norm > MAX_SPEED_INT {
            MAX_SPEED_INT as int
        } else {
            norm
        };
        signed_scale_spec(s * xi + c * yi, speed, norm * COS_ONE)
    }
}

/// The scaled components of a rotated command respect the Euclidean speed
/// cap: when the rotated vector is no longer than `COS_ONE` times the
/// command vector, dividing both components by `norm * COS_ONE` after
/// multiplying by `speed <= norm` leaves a vector of length at most
/// `speed + 1` (the one unit being the fixed-point rounding).
pub(crate) proof fn lemma_speed_cap(wx: int, wy: int, n2: int, norm: int, speed: int, mx: int, my: int)
    requires
        wx * wx + wy * wy <= (COS_ONE * COS_ONE) * n2,
        is_sqrt_floor(n2, norm),
        norm > 0,
        0 < speed <= norm,
        mx == abs_spec(wx) * speed / (norm * COS_ONE),
        my == abs_spec(wy) * speed / (norm * COS_ONE),
    ensures
        0 <= mx * mx + my * my <= (speed + 1) * (speed + 1),
{
    let awx = abs_spec(wx);
    let awy = abs_spec(wy);
    let denom = norm * COS_ONE;
    assert(awx * awx == wx * wx && awy * awy == wy * wy) by (nonlinear_arith)
        requires
            awx == abs_spec(wx),
            awy == abs_spec(wy),
    ;
    assert(denom > 0) by (nonlinear_arith)
        requires
            denom == norm * COS_ONE,
            norm > 0,
            COS_ONE == 1_000_000,
    ;
    assert(0 <= mx && mx * denom <= awx * speed) by (nonlinear_arith)
        requires
            mx == awx * speed / denom,
            denom > 0,
            awx >= 0,
            speed > 0,
    ;
    assert(0 <= my && my * denom <= awy * speed) by (nonlinear_arith)
        requires
            my == awy * speed / denom,
            denom > 0,
            awy >= 0,
            speed > 0,
    ;
    assert((mx * mx) * (denom * denom) <= (awx * awx) * (speed * speed) && (my * my) * (denom
        * denom) <= (awy * awy) * (speed * speed)) by (nonlinear_arith)
        requires
            0 <= mx,
            0 <= my,
            denom > 0,
            awx >= 0,
            awy >= 0,
            speed > 0,
            mx * denom <= awx * speed,
            my * denom <= awy * speed,
    ;
    assert(n2 <= norm * norm + 2 * norm) by (nonlinear_arith)
        requires
            is_sqrt_floor(n2, norm),
    ;
    let aa = mx * mx + my * my;
    let nn = norm * norm;
    let k = COS_ONE * COS_ONE;
    let b = (nn + 2 * norm) * (speed * speed);
    assert(aa * (denom * denom) <= (awx * awx + awy * awy) * (speed * speed)) by (nonlinear_arith)
        requires
            (mx * mx) * (denom * denom) <= (awx * awx) * (speed * speed),
            (my * my) * (denom * denom) <= (awy * awy) * (speed * speed),
            aa == mx * mx + my * my,
    ;
    assert((awx * awx + awy * awy) * (speed * speed) <= (k * n2) * (speed * speed))
        by (nonlinear_arith)
        requires
            awx * awx + awy * awy <= k * n2,
            speed > 0,
    ;
    assert((k * n2) * (speed * speed) <= k * b) by (nonlinear_arith)
        requires
            n2 <= nn + 2 * norm,
            b == (nn + 2 * norm) * (speed * speed),
            k > 0,
            speed > 0,
    ;
    assert(denom * denom == nn * k) by (nonlinear_arith)
        requires
            denom == norm * COS_ONE,
            nn == norm * norm,
            k == COS_ONE * COS_ONE,
    ;
    assert(nn > 0) by (nonlinear_arith)
        requires
            nn == norm * norm,
            norm > 0,
    ;
    assert(aa * nn <= b) by (nonlinear_arith)
        requires
            aa * (nn * k) <= k * b,
            k > 0,
    ;
    assert(b <= nn * (speed * speed + 2 * speed)) by (nonlinear_arith)
        requires
            b == (nn + 2 * norm) * (speed * speed),
            nn == norm * norm,
            0 < speed <= norm,
    ;
    assert(aa <= speed * speed + 2 * speed) by (nonlinear_arith)
        requires
            aa * nn <= nn * (speed * speed + 2 * speed),
            nn > 0,
    ;
    assert(0 <= aa && aa <= (speed + 1) * (speed + 1)) by (nonlinear_arith)
        requires
            aa <= speed * speed + 2 * speed,
            aa == mx * mx + my * my,
            mx >= 0,
            my >= 0,
    ;
}

/// The angular velocity the mapper gives a robot: the rotation command in
/// solver units, clamped to the angular speed limit.
pub open spec fn mapped_angvel_spec(cr: int) -> int {
    clamp_spec(cr * UNIT_SCALE, -MAX_ANGULAR_SPEED_INT as int, MAX_ANGULAR_SPEED_INT as int)
}

/// The full actuation of one robot for one tick, in solver units per
/// second: world-frame linear velocity, angular velocity, the consumed kick
/// request if any, and whether the kicker servo must retract this tick.
#[derive(Clone, Copy, PartialEq, Eq, Structural, Debug)]
pub struct RobotActuation {
    pub linvel_x: i64,
    pub linvel_y: i64,
    pub angvel: i64,
    pub kick: Option<i64>,
    pub retract: bool,
}

/// Maps one robot's stored command to its solver velocity targets, using
/// the robot's observed orientation for the local-to-world rotation.
#[verifier::rlimit(50)]
pub fn map_robot(control: &CommandTarget, angle: &AngleObs) -> (out: (i64, i64, i64))
    requires
        -CMD_LIMIT <= control.x <= CMD_LIMIT,
        -CMD_LIMIT <= control.y <= CMD_LIMIT,
        -CMD_LIMIT <= control.r <= CMD_LIMIT,
        angle.wf(),
    ensures
        out.0 == mapped_linvel_x_spec(
            control.x as int,
            control.y as int,
            angle.cos_u as int,
            angle.sin_u as int,
        ),
        out.1 == mapped_linvel_y_spec(
            control.x as int,
            control.y as int,
            angle.cos_u as int,
            angle.sin_u as int,
        ),
        out.2 == mapped_angvel_spec(control.r as int),
        abs_spec(out.0 as int) <= 2 * MAX_SPEED_INT,
        abs_spec(out.1 as int) <= 2 * MAX_SPEED_INT,
        (out.0 as int) * (out.0 as int) + (out.1 as int) * (out.1 as int) <= (MAX_SPEED_INT + 1)
            * (MAX_SPEED_INT + 1),
        -MAX_ANGULAR_SPEED_INT <= out.2 <= MAX_ANGULAR_SPEED_INT,
{
    let xi: i64 = control.x * UNIT_SCALE;
    let yi: i64 = control.y * UNIT_SCALE;
    proof {
        assert(0 <= (xi as int) * (xi as int) <= 400_000_000_000_000_000_000 && 0 <= (yi as int) * (
        yi as int) <= 400_000_000_000_000_000_000) by (nonlinear_arith)
            requires
                -20_000_000_000 <= xi <= 20_000_000_000,
                -20_000_000_000 <= yi <= 20_000_000_000,
        ;
    }
    let xi2: i128 = (xi as i128) * (xi as i128);
    let yi2: i128 = (yi as i128) * (yi as i128);
    let n2: u128 = (xi2 + yi2) as u128;
    let norm_u: u64 = isqrt_u128(n2);
    proof {
        lemma_floor_sqrt(n2 as int, norm_u as int);
    }
    let rr: i64 = control.r * UNIT_SCALE;
    let angvel: i64 = if rr > MAX_ANGULAR_SPEED_INT {
        MAX_ANGULAR_SPEED_INT
    } else if rr < -MAX_ANGULAR_SPEED_INT {
        -MAX_ANGULAR_SPEED_INT
    } else {
        rr
    };
    if norm_u == 0 {
        proof {
            assert((MAX_SPEED_INT + 1) * (MAX_SPEED_INT + 1) >= 0) by (nonlinear_arith);
        }
        return (0, 0, angvel);
    }
    let norm: i128 = norm_u as i128;
    let speed: i128 = if norm > MAX_SPEED_INT as i128 {
        MAX_SPEED_INT as i128
    } else {
        norm
    };
    let c: i128 = angle.cos_u as i128;
    let s: i128 = angle.sin_u as i128;
    proof {
        assert(norm_u <= 30_000_000_000u64) by (nonlinear_arith)
            requires
                is_sqrt_floor(n2 as int, norm_u as int),
                n2 <= 800_000_000_000_000_000_000u128,
        ;
        assert(abs_spec(xi as int) <= norm_u as int && abs_spec(yi as int) <= norm_u as int)
            by (nonlinear_arith)
            requires
                is_sqrt_floor(
                    (xi as int) * (xi as int) + (yi as int) * (yi as int),
                    norm_u as int,
                ),
        ;
        assert(abs_spec((c as int) * (xi as int)) <= 20_000_000_000_000_000 && abs_spec(
            (s as int) * (yi as int),
        ) <= 20_000_000_000_000_000 && abs_spec((s as int) * (xi as int))
            <= 20_000_000_000_000_000 && abs_spec((c as int) * (yi as int))
            <= 20_000_000_000_000_000) by (nonlinear_arith)
            requires
                abs_spec(xi as int) <= 20_000_000_000,
                abs_spec(yi as int) <= 20_000_000_000,
                abs_spec(c as int) <= COS_ONE as int,
                abs_spec(s as int) <= COS_ONE as int,
        ;
        assert(abs_spec((c as int) * (xi as int) - (s as int) * (yi as int)) <= 2 * (norm_u as int)
            * (COS_ONE as int) && abs_spec(
            (s as int) * (xi as int) + (c as int) * (yi as int),
        ) <= 2 * (norm_u as int) * (COS_ONE as int)) by (nonlinear_arith)
            requires
                abs_spec(xi as int) <= norm_u as int,
                abs_spec(yi as int) <= norm_u as int,
                abs_spec(c as int) <= COS_ONE as int,
                abs_spec(s as int) <= COS_ONE as int,
        ;
        assert((norm_u as int) * (COS_ONE as int) <= 0x10000000000000000 && (norm_u as int) * (
        COS_ONE as int) > 0) by (nonlinear_arith)
            requires
                0 < norm_u <= 30_000_000_000u64,
        ;
    }
    let wx: i128 = c * (xi as i128) - s * (yi as i128);
    let wy: i128 = s * (xi as i128) + c * (yi as i128);
    let denom: i128 = norm * (COS_ONE as i128);
    let lx: i64 = signed_scale(wx, speed, denom);
    let ly: i64 = signed_scale(wy, speed, denom);
    proof {
        let wxi = wx as int;
        let wyi = wy as int;
        let ci = c as int;
        let si = s as int;
        let n2i = n2 as int;
        let normi = norm_u as int;
        let speedi = speed as int;
        let denomi = denom as int;
        let pa = ci * (xi as int);
        let pb = si * (yi as int);
        let pc = si * (xi as int);
        let pd = ci * (yi as int);
        assert(pa * pb == pc * pd) by (nonlinear_arith)
            requires
                pa == ci * (xi as int),
                pb == si * (yi as int),
                pc == si * (xi as int),
                pd == ci * (yi as int),
        ;
        assert(wxi * wxi == pa * pa - 2 * (pa * pb) + pb * pb) by (nonlinear_arith)
            requires
                wxi == pa - pb,
        ;
        assert(wyi * wyi == pc * pc + 2 * (pc * pd) + pd * pd) by (nonlinear_arith)
            requires
                wyi == pc + pd,
        ;
        assert(pa * pa + pc * pc == (ci * ci + si * si) * ((xi as int) * (xi as int)))
            by (nonlinear_arith)
            requires
                pa == ci * (xi as int),
                pc == si * (xi as int),
        ;
        assert(pb * pb + pd * pd == (ci * ci + si * si) * ((yi as int) * (yi as int)))
            by (nonlinear_arith)
            requires
                pb == si * (yi as int),
                pd == ci * (yi as int),
        ;
        assert((ci * ci + si * si) * ((xi as int) * (xi as int)) + (ci * ci + si * si) * ((
        yi as int) * (yi as int)) == (ci * ci + si * si) * n2i) by (nonlinear_arith)
            requires
                n2i == (xi as int) * (xi as int) + (yi as int) * (yi as int),
        ;
        assert(wxi * wxi + wyi * wyi == (ci * ci + si * si) * n2i);
        assert((ci * ci + si * si) * n2i <= (COS_ONE * COS_ONE) * n2i) by (nonlinear_arith)
            requires
                ci * ci + si * si <= COS_ONE * COS_ONE,
                n2i >= 0,
        ;
        let mx = abs_spec(wxi) * speedi / denomi;
        let my = abs_spec(wyi) * speedi / denomi;
        assert(mx >= 0 && my >= 0 && abs_spec(lx as int) == mx && abs_spec(ly as int) == my)
            by (nonlinear_arith)
            requires
                mx == abs_spec(wxi) * speedi / denomi,
                my == abs_spec(wyi) * speedi / denomi,
                lx == signed_scale_spec(wxi, speedi, denomi),
                ly == signed_scale_spec(wyi, speedi, denomi),
                denomi > 0,
                speedi > 0,
        ;
        lemma_speed_cap(wxi, wyi, n2i, normi, speedi, mx, my);
        assert((lx as int) * (lx as int) + (ly as int) * (ly as int) <= (MAX_SPEED_INT + 1) * (
        MAX_SPEED_INT + 1)) by (nonlinear_arith)
            requires
                abs_spec(lx as int) == mx,
                abs_spec(ly as int) == my,
                0 <= mx * mx + my * my <= (speedi + 1) * (speedi + 1),
                0 < speedi <= MAX_SPEED_INT,
                mx >= 0,
                my >= 0,
        ;
    }
    (lx, ly, angvel)
}

} // verus!
