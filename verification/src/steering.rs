//! The return-to-spot steering: a proportional controller that drives a
//! penalized robot toward its penalty spot, with no obstacle avoidance.
use vstd::prelude::*;

use crate::actuation::{
    floor_sqrt, is_sqrt_floor, lemma_floor_sqrt, lemma_speed_cap, signed_scale, signed_scale_spec,
};
use crate::constants::{
    CMD_LIMIT, COS_ONE, MAX_ANGULAR_SPEED_INT, MAX_SPEED_INT, NUM_PENALTY_SPOTS, PI_URAD,
    SPOT_GAIN_TENTHS, UNIT_SCALE,
};
use crate::constants::{penalty_spot, penalty_spot_angle, spot_angle_spec, spot_pos_spec};
use crate::game_state::CommandTarget;
use crate::maths::{abs_i64, abs_spec, div_trunc, isqrt_u128, scale_down_i64, wrap_angle};
use crate::maths::{dist_sq_spec, sign_pos_spec, wrap_angle_spec};
use crate::simulation::BodyState;

verus! {

/// The angular part of the steering command, in interface units: the sign
/// of the shortest rotation to the spot's orientation, times the square
/// root of that rotation plus pi, capped at the angular speed limit.
pub open spec fn steering_angular_spec(theta: int, spot: int) -> int {
    let angle = wrap_angle_spec(spot_angle_spec(spot) - theta);
    let ang_d = floor_sqrt((abs_spec(angle) + PI_URAD) * COS_ONE);
    let ang_speed = if ang_d > MAX_ANGULAR_SPEED_INT {
        MAX_ANGULAR_SPEED_INT as int
    } else {
        ang_d
    };
    div_trunc(sign_pos_spec(angle) * ang_speed, UNIT_SCALE as int)
}

/// The linear speed of the steering command, in solver units: the distance
/// to the spot times the proportional gain, capped at the speed limit.
pub open spec fn steering_speed_spec(body: BodyState, spot: int) -> int {
    let sx = spot_pos_spec(spot).0 * UNIT_SCALE;
    let sy = spot_pos_spec(spot).1 * UNIT_SCALE;
    let d = floor_sqrt(dist_sq_spec(sx, sy, body.x as int, body.y as int));
    if d * SPOT_GAIN_TENTHS / 10 > MAX_SPEED_INT {
        MAX_SPEED_INT as int
    } else {
        d * SPOT_GAIN_TENTHS / 10
    }
}

/// The x component of the steering command, in interface units: the unit
/// vector toward the spot, rotated into the robot-local frame, scaled by
/// the steering speed.
pub open spec fn steering_linear_x_spec(body: BodyState, spot: int) -> int {
    let sx = spot_pos_spec(spot).0 * UNIT_SCALE;
    let sy = spot_pos_spec(spot).1 * UNIT_SCALE;
    let dx = sx - body.x;
    let dy = sy - body.y;
    let d = floor_sqrt(dist_sq_spec(sx, sy, body.x as int, body.y as int));
    if d == 0 {
        0
    } else {
        let w = body.angle.cos_u * dx + body.angle.sin_u * dy;
        div_trunc(
            signed_scale_spec(w, steering_speed_spec(body, spot), d * COS_ONE),
            UNIT_SCALE as int,
        )
    }
}

/// The y component of the steering command, in interface units.
pub open spec fn steering_linear_y_spec(body: BodyState, spot: int) -> int {
    let sx = spot_pos_spec(spot).0 * UNIT_SCALE;
    let sy = spot_pos_spec(spot).1 * UNIT_SCALE;
    let dx = sx - body.x;
    let dy = sy - body.y;
    let d = floor_sqrt(dist_sq_spec(sx, sy, body.x as int, body.y as int));
    if d == 0 {
        0
    } else {
        let w = -body.angle.sin_u * dx + body.angle.cos_u * dy;
        div_trunc(
            signed_scale_spec(w, steering_speed_spec(body, spot), d * COS_ONE),
            UNIT_SCALE as int,
        )
    }
}

/// The whole steering command a penalized robot is given for one tick.
pub open spec fn steering_spec(body: BodyState, spot: int) -> CommandTarget {
    CommandTarget {
        x: steering_linear_x_spec(body, spot) as i64,
        y: steering_linear_y_spec(body, spot) as i64,
        r: steering_angular_spec(body.angle.urad as int, spot) as i64,
    }
}

/// Computes the return-to-spot steering command for a robot at `body`
/// toward penalty spot `spot`, in interface units.
pub fn steering_command(body: &BodyState, spot: usize) -> (c: CommandTarget)
    requires
        body.wf(),
        spot < NUM_PENALTY_SPOTS,
    ensures
        c == steering_spec(*body, spot as int),
        -CMD_LIMIT <= c.x <= CMD_LIMIT,
        -CMD_LIMIT <= c.y <= CMD_LIMIT,
        -CMD_LIMIT <= c.r <= CMD_LIMIT,
        ((c.x as int) * (UNIT_SCALE as int)) * ((c.x as int) * (UNIT_SCALE as int)) + ((
        c.y as int) * (UNIT_SCALE as int)) * ((c.y as int) * (UNIT_SCALE as int)) <= (
        MAX_SPEED_INT + 1) * (MAX_SPEED_INT + 1),
{
    // Angular part.
    let theta: i64 = body.angle.urad;
    let sang: i64 = penalty_spot_angle(spot);
    let angle: i64 = wrap_angle(sang - theta);
    let aa: i64 = abs_i64(angle);
    proof {
        assert(((aa + PI_URAD) as int) * (COS_ONE as int) <= 10_000_000_000_000 && ((aa
            + PI_URAD) as int) * (COS_ONE as int) >= 0) by (nonlinear_arith)
            requires
                0 <= aa + PI_URAD <= 7_000_000,
        ;
    }
    let arg: u128 = ((aa + PI_URAD) as u128) * (COS_ONE as u128);
    let ang_d_u: u64 = isqrt_u128(arg);
    proof {
        lemma_floor_sqrt(arg as int, ang_d_u as int);
    }
    let ang_speed: i64 = if ang_d_u > MAX_ANGULAR_SPEED_INT as u64 {
        MAX_ANGULAR_SPEED_INT
    } else {
        ang_d_u as i64
    };
    let signed_ang: i64 = if angle >= 0 {
        ang_speed
    } else {
        -ang_speed
    };
    let r_cmd: i64 = scale_down_i64(signed_ang);

    // Linear part.
    let (px, py) = penalty_spot(spot);
    let sx: i64 = px * UNIT_SCALE;
    let sy: i64 = py * UNIT_SCALE;
    let dx: i64 = sx - body.x;
    let dy: i64 = sy - body.y;
    proof {
        assert(0 <= (dx as int) * (dx as int) <= 1_300_000_000_000_000_000 && 0 <= (dy as int) * (
        dy as int) <= 1_300_000_000_000_000_000) by (nonlinear_arith)
            requires
                -1_100_000_000 <= dx <= 1_100_000_000,
                -1_100_000_000 <= dy <= 1_100_000_000,
        ;
    }
    let d2: i64 = dx * dx + dy * dy;
    let d_u: u64 = isqrt_u128(d2 as u128);
    proof {
        lemma_floor_sqrt(d2 as int, d_u as int);
        assert(d_u <= 2_000_000_000u64) by (nonlinear_arith)
            requires
                is_sqrt_floor(d2 as int, d_u as int),
                d2 <= 2_600_000_000_000_000_000i64,
        ;
    }
    if d_u == 0 {
        proof {
            assert((MAX_SPEED_INT + 1) * (MAX_SPEED_INT + 1) >= 0) by (nonlinear_arith);
        }
        let c = CommandTarget { x: 0, y: 0, r: r_cmd };
        return c;
    }
    let d: i64 = d_u as i64;
    let speed_raw: i64 = d * SPOT_GAIN_TENTHS / 10;
    let speed: i64 = if speed_raw > MAX_SPEED_INT {
        MAX_SPEED_INT
    } else {
        speed_raw
    };
    proof {
        assert(abs_spec(dx as int) <= d_u as int && abs_spec(dy as int) <= d_u as int)
            by (nonlinear_arith)
            requires
                is_sqrt_floor((dx as int) * (dx as int) + (dy as int) * (dy as int), d_u as int),
        ;
        assert(abs_spec((body.angle.cos_u as int) * (dx as int) + (body.angle.sin_u as int) * (
        dy as int)) <= 2 * (d_u as int) * (COS_ONE as int) && abs_spec(
            -(body.angle.sin_u as int) * (dx as int) + (body.angle.cos_u as int) * (dy as int),
        ) <= 2 * (d_u as int) * (COS_ONE as int)) by (nonlinear_arith)
            requires
                abs_spec(dx as int) <= d_u as int,
                abs_spec(dy as int) <= d_u as int,
                abs_spec(body.angle.cos_u as int) <= COS_ONE as int,
                abs_spec(body.angle.sin_u as int) <= COS_ONE as int,
        ;
        assert((d_u as int) * (COS_ONE as int) <= 0x10000000000000000 && (d_u as int) * (
        COS_ONE as int) > 0) by (nonlinear_arith)
            requires
                0 < d_u <= 2_000_000_000u64,
        ;
        assert(0 <= (d as int) * (SPOT_GAIN_TENTHS as int) / 10) by (nonlinear_arith)
            requires
                d > 0,
                SPOT_GAIN_TENTHS == 3,
        ;
    }
    let cu: i128 = body.angle.cos_u as i128;
    let su: i128 = body.angle.sin_u as i128;
    proof {
        assert(abs_spec((cu as int) * (dx as int)) <= 2_000_000_000_000_000 && abs_spec(
            (su as int) * (dy as int),
        ) <= 2_000_000_000_000_000 && abs_spec((su as int) * (dx as int))
            <= 2_000_000_000_000_000 && abs_spec((cu as int) * (dy as int))
            <= 2_000_000_000_000_000) by (nonlinear_arith)
            requires
                abs_spec(cu as int) <= 1_000_000,
                abs_spec(su as int) <= 1_000_000,
                abs_spec(dx as int) <= 1_100_000_000,
                abs_spec(dy as int) <= 1_100_000_000,
        ;
    }
    let wx: i128 = cu * (dx as i128) + su * (dy as i128);
    let wy: i128 = -su * (dx as i128) + cu * (dy as i128);
    let denom: i128 = (d as i128) * (COS_ONE as i128);
    let lx: i64 = signed_scale(wx, speed as i128, denom);
    let ly: i64 = signed_scale(wy, speed as i128, denom);
    proof {
        let wxi = wx as int;
        let wyi = wy as int;
        let ci = cu as int;
        let si = su as int;
        let d2i = d2 as int;
        let di = d_u as int;
        let speedi = speed as int;
        let denomi = denom as int;
        let pa = ci * (dx as int);
        let pb = si * (dy as int);
        let pc = si * (dx as int);
        let pd = ci * (dy as int);
        assert(pa * pb == pc * pd) by (nonlinear_arith)
            requires
                pa == ci * (dx as int),
                pb == si * (dy as int),
                pc == si * (dx as int),
                pd == ci * (dy as int),
        ;
        assert(wxi * wxi == pa * pa + 2 * (pa * pb) + pb * pb) by (nonlinear_arith)
            requires
                wxi == pa + pb,
        ;
        assert(wyi == pd - pc) by (nonlinear_arith)
            requires
                wyi == -si * (dx as int) + ci * (dy as int),
                pc == si * (dx as int),
                pd == ci * (dy as int),
        ;
        assert(wyi * wyi == pd * pd - 2 * (pc * pd) + pc * pc) by (nonlinear_arith)
            requires
                wyi == pd - pc,
        ;
        assert(pa * pa + pc * pc == (ci * ci + si * si) * ((dx as int) * (dx as int)))
            by (nonlinear_arith)
            requires
                pa == ci * (dx as int),
                pc == si * (dx as int),
        ;
        assert(pb * pb + pd * pd == (ci * ci + si * si) * ((dy as int) * (dy as int)))
            by (nonlinear_arith)
            requires
                pb == si * (dy as int),
                pd == ci * (dy as int),
        ;
        assert((ci * ci + si * si) * ((dx as int) * (dx as int)) + (ci * ci + si * si) * ((
        dy as int) * (dy as int)) == (ci * ci + si * si) * d2i) by (nonlinear_arith)
            requires
                d2i == (dx as int) * (dx as int) + (dy as int) * (dy as int),
        ;
        assert(wxi * wxi + wyi * wyi == (ci * ci + si * si) * d2i);
        assert((ci * ci + si * si) * d2i <= (COS_ONE * COS_ONE) * d2i) by (nonlinear_arith)
            requires
                ci * ci + si * si <= COS_ONE * COS_ONE,
                d2i >= 0,
        ;
        let mx = abs_spec(wxi) * speedi / denomi;
        let my = abs_spec(wyi) * speedi / denomi;
        assert(mx >= 0 && my >= 0 && abs_spec(lx as int) == mx && abs_spec(ly as int) == my)
            by (nonlinear_arith)
            requires
                mx == abs_spec(wxi) * speedi / denomi,
                my == abs_spec(wyi) * speedi / denomi,
                lx == signed_scale_spec(wxi, speedi, denomi),
                ly == signed_scale_spec(wyi, speedi, denomi),
                denomi > 0,
                speedi >= 0,
        ;
        if speedi == 0 {
            assert(mx == 0 && my == 0) by (nonlinear_arith)
                requires
                    mx == abs_spec(wxi) * speedi / denomi,
                    my == abs_spec(wyi) * speedi / denomi,
                    denomi > 0,
                    speedi == 0,
            ;
            assert((MAX_SPEED_INT + 1) * (MAX_SPEED_INT + 1) >= 1) by (nonlinear_arith);
        } else {
            lemma_speed_cap(wxi, wyi, d2i, di, speedi, mx, my);
        }
        assert((lx as int) * (lx as int) + (ly as int) * (ly as int) <= (MAX_SPEED_INT + 1) * (
        MAX_SPEED_INT + 1)) by (nonlinear_arith)
            requires
                abs_spec(lx as int) == mx,
                abs_spec(ly as int) == my,
                0 <= mx * mx + my * my <= (speedi + 1) * (speedi + 1) || (mx == 0 && my == 0),
                0 <= speedi <= MAX_SPEED_INT,
                mx >= 0,
                my >= 0,
        ;
    }
    let cx = scale_down_i64(lx);
    let cy = scale_down_i64(ly);
    proof {
        assert(((cx as int) * (UNIT_SCALE as int)) * ((cx as int) * (UNIT_SCALE as int)) + ((
        cy as int) * (UNIT_SCALE as int)) * ((cy as int) * (UNIT_SCALE as int)) <= (lx as int) * (
        lx as int) + (ly as int) * (ly as int)) by (nonlinear_arith)
            requires
                abs_spec((cx as int) * (UNIT_SCALE as int)) <= abs_spec(lx as int),
                abs_spec((cy as int) * (UNIT_SCALE as int)) <= abs_spec(ly as int),
        ;
    }
    let c = CommandTarget { x: cx, y: cy, r: r_cmd };
    c
}

} // verus!
