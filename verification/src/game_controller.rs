//! The composition root of the match engine.
//!
//! A [`GC`] owns the solver mirror and the referee. Each tick its caller
//! asks for the actuation of all four robots ([`GC::step_actuation`]),
//! applies it to the rigid-body solver, steps the solver, and hands the
//! observed poses back ([`GC::step_observe`]), which runs the referee
//! evaluation and returns what the caller must still apply to the solver
//! (resets and ball teleports).
//!
//! Every position crossing this interface is in interface units
//! (micrometers, microradians); the engine multiplies by
//! `constants::UNIT_SCALE` internally and divides it back out on every read.
use vstd::prelude::*;

use crate::actuation::{
    map_robot, mapped_angvel_spec, mapped_linvel_x_spec, mapped_linvel_y_spec, RobotActuation,
};
use crate::constants::{
    penalty_spot, spot_pos_spec, BALL_ABUSE_RADIUS_INT, BALL_ABUSE_TIME, CMD_LIMIT, DOT_X_INT,
    DOT_Y_INT, FIELD_X_INT, FIELD_Y_INT, GOAL_HEIGHT_INT, KICK_MAX, KICK_TICKS, MAX_SPEED_INT,
    NUM_PENALTY_SPOTS, PENALTY_DURATION, POS_LIMIT, ROBOT_RADIUS_INT, UNIT_SCALE,
};
use crate::game_state::{CommandTarget, GameState, Markers, Penalty, Pose, Robot, RobotTasks};
use crate::maths::{abs_i64, abs_spec, clamp_i64, clamp_spec, dist_sq_i64, dist_sq_spec, div_trunc, scale_down_i64, scale_up_i64, sign_pos_i64, sign_pos_spec};
use crate::referee::{MatchState, Referee, TaskStore, TeamInfo};
use crate::steering::{steering_command, steering_spec};
use crate::simulation::{AngleObs, BodyState, EntityHandle, Observation, Simulation};

verus! {

/// What the referee asks the caller to apply to the solver after one tick:
/// a world reset after a goal, a ball teleport (in solver units) after an
/// out-of-bounds.
#[derive(Clone, Copy, Debug)]
pub struct RefereeEvents {
    pub blue_scored: bool,
    pub green_scored: bool,
    pub reset: bool,
    pub ball_teleport: Option<(i64, i64)>,
}

/// The game controller: the solver mirror and the referee engine, which
/// owns the task store.
#[derive(Clone, Debug)]
pub struct GC {
    pub simu: Simulation,
    pub referee: Referee,
}

impl GC {
    /// Consistency of the whole engine: the mirror is in bounds and the
    /// referee agrees with the mirror's clock.
    pub open spec fn wf(self) -> bool {
        &&& self.simu.wf()
        &&& self.referee.wf(self.simu.t)
    }

    /// Builds a controller with a fresh world at kickoff and a referee with
    /// both scores at zero, running from tick zero.
    pub fn new(
        blue_team_name: String,
        green_team_name: String,
        blue_team_key: String,
        green_team_key: String,
        blue_team_positive: bool,
    ) -> (gc: GC)
        ensures
            gc.wf(),
            gc.simu.at_kickoff(),
            gc.simu.t == 0,
            gc.referee.teams[0].name == blue_team_name,
            gc.referee.teams[1].name == green_team_name,
            gc.referee.teams[0].score == 0,
            gc.referee.teams[1].score == 0,
            gc.referee.blue_team_positive == blue_team_positive,
            gc.referee.state == MatchState::Running(0u64),
            forall|i: int|
                0 <= i < 4 ==> #[trigger] gc.referee.tasks.tasks[i] == RobotTasks::idle_spec(),
            forall|i: int| 0 <= i < 4 ==> #[trigger] gc.referee.with_ball[i] == 0,
    {
        GC {
            simu: Simulation::new(),
            referee: Referee::new(
                blue_team_name,
                green_team_name,
                blue_team_key,
                green_team_key,
                blue_team_positive,
            ),
        }
    }

    /// A robot is preempted exactly while it carries a penalty.
    pub open spec fn preempted(self, id: Robot) -> bool {
        self.referee.tasks.tasks[id.index_spec()].penalty is Some
    }

    /// Command ingress: stores a new velocity target for one robot, to be
    /// consumed by the next tick. While the robot is penalized the call is
    /// refused and changes nothing, whatever the caller submits; the engine's
    /// steering stays in charge. Returns whether the command was accepted.
    pub fn set_command(&mut self, id: Robot, x: i64, y: i64, r: i64) -> (accepted: bool)
        requires
            old(self).wf(),
            -CMD_LIMIT <= x <= CMD_LIMIT,
            -CMD_LIMIT <= y <= CMD_LIMIT,
            -CMD_LIMIT <= r <= CMD_LIMIT,
        ensures
            final(self).wf(),
            accepted == !old(self).preempted(id),
            old(self).preempted(id) ==> *final(self) == *old(self),
            !old(self).preempted(id) ==> {
                &&& final(self).referee.tasks.tasks[id.index_spec()].control == (CommandTarget {
                    x,
                    y,
                    r,
                })
                &&& final(self).referee.tasks.tasks[id.index_spec()].kick == old(self).referee.tasks.tasks[id.index_spec()].kick
                &&& final(self).referee.tasks.tasks[id.index_spec()].penalty == old(self).referee.tasks.tasks[id.index_spec()].penalty
                &&& forall|j: int|
                    0 <= j < 4 && j != id.index_spec() ==> #[trigger] final(self).referee.tasks.tasks[j] == old(self).referee.tasks.tasks[j]
                &&& final(self).simu == old(self).simu
                &&& final(self).referee.teams == old(self).referee.teams
                &&& final(self).referee.state == old(self).referee.state
                &&& final(self).referee.with_ball == old(self).referee.with_ball
                &&& final(self).referee.blue_team_positive == old(self).referee.blue_team_positive
            },
    {
        let i = id.index();
        if self.referee.tasks.tasks[i].penalty.is_some() {
            return false;
        }
        let kick = self.referee.tasks.tasks[i].kick;
        self.referee.tasks.tasks[i] = RobotTasks {
            control: CommandTarget { x, y, r },
            kick,
            penalty: None,
        };
        true
    }

    /// Command ingress: stores a one-shot kick request for one robot, the
    /// strength saturated into `[0, KICK_MAX]` (millionths of full power).
    /// Refused while the robot is penalized. Returns whether the request
    /// was accepted.
    pub fn set_kick(&mut self, id: Robot, f: i64) -> (accepted: bool)
        requires
            old(self).wf(),
        ensures
            final(self).wf(),
            accepted == !old(self).preempted(id),
            old(self).preempted(id) ==> *final(self) == *old(self),
            !old(self).preempted(id) ==> {
                &&& final(self).referee.tasks.tasks[id.index_spec()].kick == Some(
                    clamp_spec(f as int, 0, KICK_MAX as int) as i64,
                )
                &&& final(self).referee.tasks.tasks[id.index_spec()].control == old(self).referee.tasks.tasks[id.index_spec()].control
                &&& final(self).referee.tasks.tasks[id.index_spec()].penalty == old(self).referee.tasks.tasks[id.index_spec()].penalty
                &&& forall|j: int|
                    0 <= j < 4 && j != id.index_spec() ==> #[trigger] final(self).referee.tasks.tasks[j] == old(self).referee.tasks.tasks[j]
                &&& final(self).simu == old(self).simu
                &&& final(self).referee.teams == old(self).referee.teams
                &&& final(self).referee.state == old(self).referee.state
                &&& final(self).referee.with_ball == old(self).referee.with_ball
                &&& final(self).referee.blue_team_positive == old(self).referee.blue_team_positive
            },
    {
        let i = id.index();
        if self.referee.tasks.tasks[i].penalty.is_some() {
            return false;
        }
        let control = self.referee.tasks.tasks[i].control;
        let penalty = None;
        let strength = clamp_i64(f, 0, KICK_MAX);
        self.referee.tasks.tasks[i] = RobotTasks { control, kick: Some(strength), penalty };
        true
    }

    /// Returns the handle of the ball.
    pub fn get_ball_handle(&self) -> (h: EntityHandle)
        ensures
            h == EntityHandle::Ball,
    {
        self.simu.get_ball_handle()
    }

    /// Returns the handle of a robot.
    pub fn get_robot_handle(&self, id: Robot) -> (h: EntityHandle)
        ensures
            h == EntityHandle::Robot(id),
    {
        self.simu.get_robot_handle(id)
    }

    /// Teleports one body to a position given in interface units, zeroing
    /// its solver velocity; with `None` the orientation is kept. The caller
    /// applies the same teleport to the solver.
    pub fn teleport_entity(&mut self, entity: EntityHandle, x: i64, y: i64, r: Option<AngleObs>)
        requires
            old(self).wf(),
            -POS_LIMIT <= x <= POS_LIMIT,
            -POS_LIMIT <= y <= POS_LIMIT,
            r is Some ==> r->0.wf(),
        ensures
            final(self).wf(),
            final(self).referee == old(self).referee,
            final(self).simu.t == old(self).simu.t,
            final(self).simu.kicker_timer == old(self).simu.kicker_timer,
            entity == EntityHandle::Ball ==> {
                &&& final(self).simu.ball_x == x * UNIT_SCALE
                &&& final(self).simu.ball_y == y * UNIT_SCALE
                &&& final(self).simu.robots == old(self).simu.robots
                &&& final(self).simu.kickers == old(self).simu.kickers
            },
            entity matches EntityHandle::Robot(id) ==> {
                &&& final(self).simu.ball_x == old(self).simu.ball_x
                &&& final(self).simu.ball_y == old(self).simu.ball_y
                &&& final(self).simu.kickers == old(self).simu.kickers
                &&& final(self).simu.robots[id.index_spec()].x == x * UNIT_SCALE
                &&& final(self).simu.robots[id.index_spec()].y == y * UNIT_SCALE
                &&& final(self).simu.robots[id.index_spec()].angle == (if r is Some {
                    r->0
                } else {
                    old(self).simu.robots[id.index_spec()].angle
                })
                &&& forall|j: int|
                    0 <= j < 4 && j != id.index_spec() ==> #[trigger] final(self).simu.robots[j]
                        == old(self).simu.robots[j]
            },
    {
        let xi = scale_up_i64(x);
        let yi = scale_up_i64(y);
        self.simu.teleport_entity(entity, xi, yi, r);
    }

    /// Teleports the ball to a position in interface units.
    pub fn teleport_ball(&mut self, x: i64, y: i64)
        requires
            old(self).wf(),
            -POS_LIMIT <= x <= POS_LIMIT,
            -POS_LIMIT <= y <= POS_LIMIT,
        ensures
            final(self).wf(),
            final(self).referee == old(self).referee,
            final(self).simu.t == old(self).simu.t,
            final(self).simu.kicker_timer == old(self).simu.kicker_timer,
            final(self).simu.ball_x == x * UNIT_SCALE,
            final(self).simu.ball_y == y * UNIT_SCALE,
            final(self).simu.robots == old(self).simu.robots,
            final(self).simu.kickers == old(self).simu.kickers,
    {
        self.teleport_entity(EntityHandle::Ball, x, y, None);
    }

    /// Teleports one robot to a pose in interface units.
    pub fn teleport_robot(&mut self, id: Robot, x: i64, y: i64, r: Option<AngleObs>)
        requires
            old(self).wf(),
            -POS_LIMIT <= x <= POS_LIMIT,
            -POS_LIMIT <= y <= POS_LIMIT,
            r is Some ==> r->0.wf(),
        ensures
            final(self).wf(),
            final(self).referee == old(self).referee,
            final(self).simu.t == old(self).simu.t,
            final(self).simu.kicker_timer == old(self).simu.kicker_timer,
            final(self).simu.ball_x == old(self).simu.ball_x,
            final(self).simu.ball_y == old(self).simu.ball_y,
            final(self).simu.kickers == old(self).simu.kickers,
            final(self).simu.robots[id.index_spec()].x == x * UNIT_SCALE,
            final(self).simu.robots[id.index_spec()].y == y * UNIT_SCALE,
            final(self).simu.robots[id.index_spec()].angle == (if r is Some {
                r->0
            } else {
                old(self).simu.robots[id.index_spec()].angle
            }),
            forall|j: int|
                0 <= j < 4 && j != id.index_spec() ==> #[trigger] final(self).simu.robots[j]
                    == old(self).simu.robots[j],
    {
        self.teleport_entity(EntityHandle::Robot(id), x, y, r);
    }

    /// Point-in-shape query in interface units; used by placement tooling.
    pub fn find_entity_at(&self, x: i64, y: i64) -> (h: Option<EntityHandle>)
        requires
            self.wf(),
            -POS_LIMIT <= x <= POS_LIMIT,
            -POS_LIMIT <= y <= POS_LIMIT,
        ensures
            h == self.simu.entity_at_spec(x * UNIT_SCALE, y * UNIT_SCALE),
    {
        let xi = scale_up_i64(x);
        let yi = scale_up_i64(y);
        self.simu.find_entity_at(xi, yi)
    }

    /// Teleports ball and robots back to the kickoff layout. The caller
    /// applies the same reset to the solver, zeroing all velocities.
    pub fn reset(&mut self)
        requires
            old(self).wf(),
        ensures
            final(self).wf(),
            final(self).referee == old(self).referee,
            final(self).simu.at_kickoff(),
            final(self).simu.t == old(self).simu.t,
            forall|i: int| 0 <= i < 4 ==> #[trigger] final(self).simu.kicker_timer[i] == 0,
    {
        self.simu.reset();
    }

    /// Starts a kick of robot `id` at strength `f` (in millionths). The
    /// caller drives the solver's kicker servo accordingly.
    pub fn kick(&mut self, id: Robot, f: i64)
        requires
            old(self).wf(),
        ensures
            final(self).wf(),
            final(self).referee == old(self).referee,
            final(self).simu.t == old(self).simu.t,
            final(self).simu.ball_x == old(self).simu.ball_x,
            final(self).simu.ball_y == old(self).simu.ball_y,
            final(self).simu.robots == old(self).simu.robots,
            final(self).simu.kickers == old(self).simu.kickers,
            final(self).simu.kicker_timer[id.index_spec()] == crate::constants::KICK_TICKS,
            forall|j: int|
                0 <= j < 4 && j != id.index_spec() ==> #[trigger] final(self).simu.kicker_timer[j]
                    == old(self).simu.kicker_timer[j],
    {
        self.simu.kick(id, f);
    }

    /// The pose of one robot in interface units, as a snapshot shows it.
    pub open spec fn marker_spec(self, i: int) -> Pose {
        Pose {
            x: div_trunc(self.simu.robots[i].x as int, UNIT_SCALE as int) as i64,
            y: div_trunc(self.simu.robots[i].y as int, UNIT_SCALE as int) as i64,
            orientation: self.simu.robots[i].angle.urad,
        }
    }

    /// Returns the pose of one kicker in interface units.
    pub fn get_kicker_pose(&self, id: Robot) -> (p: Pose)
        requires
            self.wf(),
        ensures
            p.x == div_trunc(self.simu.kickers[id.index_spec()].x as int, UNIT_SCALE as int),
            p.y == div_trunc(self.simu.kickers[id.index_spec()].y as int, UNIT_SCALE as int),
            p.orientation == self.simu.kickers[id.index_spec()].angle.urad,
    {
        let i = id.index();
        Pose {
            x: scale_down_i64(self.simu.kickers[i].x),
            y: scale_down_i64(self.simu.kickers[i].y),
            orientation: self.simu.kickers[i].angle.urad,
        }
    }

    /// Assembles the read-only snapshot of the whole game: ball position and
    /// robot poses converted back to interface units, and the full referee
    /// block at the current tick.
    pub fn get_game_state(&self) -> (gs: GameState)
        requires
            self.wf(),
        ensures
            gs.ball matches Some(b) && b.0 == div_trunc(self.simu.ball_x as int, UNIT_SCALE as int)
                && b.1 == div_trunc(self.simu.ball_y as int, UNIT_SCALE as int),
            gs.markers.blue1 == self.marker_spec(0),
            gs.markers.blue2 == self.marker_spec(1),
            gs.markers.green1 == self.marker_spec(2),
            gs.markers.green2 == self.marker_spec(3),
            gs.referee.teams.blue.name == self.referee.teams[0].name,
            gs.referee.teams.green.name == self.referee.teams[1].name,
            gs.referee.teams.blue.score == self.referee.teams[0].score,
            gs.referee.teams.green.score == self.referee.teams[1].score,
            gs.referee.teams.blue.x_positive == self.referee.blue_team_positive,
            gs.referee.teams.green.x_positive == !self.referee.blue_team_positive,
            crate::referee::robot_block_matches(
                gs.referee.teams.blue.robots.one,
                self.referee.tasks.tasks[0],
                self.simu.t,
            ),
            crate::referee::robot_block_matches(
                gs.referee.teams.blue.robots.two,
                self.referee.tasks.tasks[1],
                self.simu.t,
            ),
            crate::referee::robot_block_matches(
                gs.referee.teams.green.robots.one,
                self.referee.tasks.tasks[2],
                self.simu.t,
            ),
            crate::referee::robot_block_matches(
                gs.referee.teams.green.robots.two,
                self.referee.tasks.tasks[3],
                self.simu.t,
            ),
            gs.referee.game_is_running == (self.referee.state matches MatchState::Running(_)),
            gs.referee.game_paused == (self.referee.state matches MatchState::Paused(_)),
            gs.referee.halftime_is_running == (self.referee.state == MatchState::Halftime),
            gs.referee.timer == self.referee.timer_spec(self.simu.t),
    {
        let ball = Some((scale_down_i64(self.simu.ball_x), scale_down_i64(self.simu.ball_y)));
        let markers = Markers {
            blue1: self.marker(Robot::Blue1),
            blue2: self.marker(Robot::Blue2),
            green1: self.marker(Robot::Green1),
            green2: self.marker(Robot::Green2),
        };
        GameState { ball, markers, referee: self.referee.get_gs_referee(self.simu.t) }
    }

    /// What `act_one` does for one robot: the actuation read from its task
    /// entry and the robot's observed orientation, the kick consumed, the
    /// kick timer wound up, everything else untouched.
    pub open spec fn acted_one(pre: GC, post: GC, id: Robot, a: RobotActuation) -> bool {
        let i = id.index_spec();
        let t0 = pre.referee.tasks.tasks[i];
        let ang = pre.simu.robots[i].angle;
        &&& a.linvel_x == mapped_linvel_x_spec(
            t0.control.x as int,
            t0.control.y as int,
            ang.cos_u as int,
            ang.sin_u as int,
        )
        &&& a.linvel_y == mapped_linvel_y_spec(
            t0.control.x as int,
            t0.control.y as int,
            ang.cos_u as int,
            ang.sin_u as int,
        )
        &&& a.angvel == mapped_angvel_spec(t0.control.r as int)
        &&& (a.linvel_x as int) * (a.linvel_x as int) + (a.linvel_y as int) * (a.linvel_y as int)
            <= (MAX_SPEED_INT + 1) * (MAX_SPEED_INT + 1)
        &&& a.kick == t0.kick
        &&& a.retract == (pre.simu.kicker_timer[i] == 0 && t0.kick is None)
        &&& post.referee.tasks.tasks[i].kick is None
        &&& post.referee.tasks.tasks[i].control == t0.control
        &&& post.referee.tasks.tasks[i].penalty == t0.penalty
        &&& post.simu.kicker_timer[i] == (if t0.kick is Some {
            KICK_TICKS
        } else {
            pre.simu.kicker_timer[i]
        })
        &&& forall|j: int|
            0 <= j < 4 && j != i ==> #[trigger] post.referee.tasks.tasks[j]
                == pre.referee.tasks.tasks[j]
        &&& forall|j: int|
            0 <= j < 4 && j != i ==> #[trigger] post.simu.kicker_timer[j]
                == pre.simu.kicker_timer[j]
        &&& post.simu.ball_x == pre.simu.ball_x
        &&& post.simu.ball_y == pre.simu.ball_y
        &&& post.simu.robots == pre.simu.robots
        &&& post.simu.kickers == pre.simu.kickers
        &&& post.simu.t == pre.simu.t
        &&& post.referee.teams == pre.referee.teams
        &&& post.referee.state == pre.referee.state
        &&& post.referee.with_ball == pre.referee.with_ball
        &&& post.referee.blue_team_positive == pre.referee.blue_team_positive
    }

    /// Runs the actuation mapping for one robot: reads its pending command,
    /// maps it to solver velocity targets, and consumes its kick request.
    fn act_one(&mut self, id: Robot) -> (a: RobotActuation)
        requires
            old(self).wf(),
        ensures
            final(self).wf(),
            GC::acted_one(*old(self), *final(self), id, a),
    {
        let i = id.index();
        let control = self.referee.tasks.tasks[i].control;
        let angle = self.simu.robots[i].angle;
        let (lx, ly, av) = map_robot(&control, &angle);
        let kick = self.referee.tasks.tasks[i].kick;
        let retract = self.simu.kicker_timer[i] == 0 && kick.is_none();
        if let Some(f) = kick {
            self.simu.kick(id, f);
        }
        let penalty = match &self.referee.tasks.tasks[i].penalty {
            Some(p) => Some(p.clone_penalty()),
            None => None,
        };
        self.referee.tasks.tasks[i] = RobotTasks { control, kick: None, penalty };
        RobotActuation { linvel_x: lx, linvel_y: ly, angvel: av, kick, retract }
    }

    /// Runs the actuation mapping over all four robots in slot order: for
    /// each robot, its stored command (the referee's steering while it is
    /// penalized) becomes a world-frame velocity target, and its kick
    /// request is consumed exactly once. The caller applies the returned
    /// actuation to the solver and then steps it.
    pub fn step_actuation(&mut self) -> (acts: [RobotActuation; 4])
        requires
            old(self).wf(),
        ensures
            final(self).wf(),
            forall|i: int|
                0 <= i < 4 ==> {
                    let t0 = old(self).referee.tasks.tasks[i];
                    let ang = old(self).simu.robots[i].angle;
                    &&& (#[trigger] acts[i]).linvel_x == mapped_linvel_x_spec(
                        t0.control.x as int,
                        t0.control.y as int,
                        ang.cos_u as int,
                        ang.sin_u as int,
                    )
                    &&& acts[i].linvel_y == mapped_linvel_y_spec(
                        t0.control.x as int,
                        t0.control.y as int,
                        ang.cos_u as int,
                        ang.sin_u as int,
                    )
                    &&& acts[i].angvel == mapped_angvel_spec(t0.control.r as int)
                    &&& (acts[i].linvel_x as int) * (acts[i].linvel_x as int) + (
                    acts[i].linvel_y as int) * (acts[i].linvel_y as int) <= (MAX_SPEED_INT + 1) * (
                    MAX_SPEED_INT + 1)
                    &&& acts[i].kick == t0.kick
                    &&& acts[i].retract == (old(self).simu.kicker_timer[i] == 0 && t0.kick is None)
                },
            forall|i: int|
                0 <= i < 4 ==> {
                    &&& (#[trigger] final(self).referee.tasks.tasks[i]).kick is None
                    &&& final(self).referee.tasks.tasks[i].control == old(
                        self,
                    ).referee.tasks.tasks[i].control
                    &&& final(self).referee.tasks.tasks[i].penalty == old(
                        self,
                    ).referee.tasks.tasks[i].penalty
                    &&& final(self).simu.kicker_timer[i] == (if old(
                        self,
                    ).referee.tasks.tasks[i].kick is Some {
                        KICK_TICKS
                    } else {
                        old(self).simu.kicker_timer[i]
                    })
                },
            final(self).simu.ball_x == old(self).simu.ball_x,
            final(self).simu.ball_y == old(self).simu.ball_y,
            final(self).simu.robots == old(self).simu.robots,
            final(self).simu.kickers == old(self).simu.kickers,
            final(self).simu.t == old(self).simu.t,
            final(self).referee.teams == old(self).referee.teams,
            final(self).referee.state == old(self).referee.state,
            final(self).referee.with_ball == old(self).referee.with_ball,
            final(self).referee.blue_team_positive == old(self).referee.blue_team_positive,
    {
        let a0 = self.act_one(Robot::Blue1);
        let a1 = self.act_one(Robot::Blue2);
        let a2 = self.act_one(Robot::Green1);
        let a3 = self.act_one(Robot::Green2);
        let acts = [a0, a1, a2, a3];
        proof {
            assert(acts[0] == a0 && acts[1] == a1 && acts[2] == a2 && acts[3] == a3);
        }
        acts
    }

    /// The squared distance from robot `r_idx` to penalty spot `s`, in
    /// solver units.
    pub open spec fn spot_dist_sq(self, r_idx: int, s: int) -> int {
        dist_sq_spec(
            self.simu.robots[r_idx].x as int,
            self.simu.robots[r_idx].y as int,
            spot_pos_spec(s).0 * UNIT_SCALE,
            spot_pos_spec(s).1 * UNIT_SCALE,
        )
    }

    /// Spot `s` is not eligible for robot `r_idx`: some other robot stands
    /// within a robot radius of it, or an active penalty already claims it.
    pub open spec fn spot_blocked(self, r_idx: int, s: int) -> bool {
        ||| exists|j: int|
            0 <= j < 4 && j != r_idx && dist_sq_spec(
                (#[trigger] self.simu.robots[j]).x as int,
                self.simu.robots[j].y as int,
                spot_pos_spec(s).0 * UNIT_SCALE,
                spot_pos_spec(s).1 * UNIT_SCALE,
            ) < (ROBOT_RADIUS_INT as int) * (ROBOT_RADIUS_INT as int)
        ||| exists|j: int|
            0 <= j < 4 && (#[trigger] self.referee.tasks.tasks[j].penalty) is Some
                && self.referee.tasks.tasks[j].penalty->0.spot == s
    }

    /// No penalty spot is eligible for robot `r_idx`.
    pub open spec fn no_spot_eligible(self, r_idx: int) -> bool {
        forall|s: int| 0 <= s < NUM_PENALTY_SPOTS ==> #[trigger] self.spot_blocked(r_idx, s)
    }

    /// `s` is the spot `penalize` assigns to robot `r_idx`: among the
    /// eligible spots, the one farthest from the robot, earlier spots
    /// winning ties; spot zero as the documented fallback when no spot is
    /// eligible.
    pub open spec fn is_chosen_spot(self, r_idx: int, s: int) -> bool {
        if self.no_spot_eligible(r_idx) {
            s == 0
        } else {
            &&& 0 <= s < NUM_PENALTY_SPOTS
            &&& !self.spot_blocked(r_idx, s)
            &&& forall|k: int|
                0 <= k < NUM_PENALTY_SPOTS && !(#[trigger] self.spot_blocked(r_idx, k))
                    ==> self.spot_dist_sq(r_idx, k) <= self.spot_dist_sq(r_idx, s)
            &&& forall|k: int|
                0 <= k < s && !(#[trigger] self.spot_blocked(r_idx, k)) ==> self.spot_dist_sq(
                    r_idx,
                    k,
                ) < self.spot_dist_sq(r_idx, s)
        }
    }

    /// A penalty expiry extended by one penalty duration, saturating.
    pub open spec fn end_plus_spec(end: u64) -> u64 {
        if end + PENALTY_DURATION <= u64::MAX {
            (end + PENALTY_DURATION) as u64
        } else {
            u64::MAX
        }
    }

    /// Returns `end` extended by one penalty duration, saturating.
    fn end_plus_duration(end: u64) -> (r: u64)
        ensures
            r == GC::end_plus_spec(end),
    {
        if end <= u64::MAX - PENALTY_DURATION {
            end + PENALTY_DURATION
        } else {
            u64::MAX
        }
    }

    /// Returns whether spot `s` is blocked for robot `id`.
    fn spot_blocked_exec(&self, id: Robot, s: usize) -> (b: bool)
        requires
            self.wf(),
            s < NUM_PENALTY_SPOTS,
        ensures
            b == self.spot_blocked(id.index_spec(), s as int),
    {
        let i = id.index();
        let (px, py) = penalty_spot(s);
        let sx: i64 = px * UNIT_SCALE;
        let sy: i64 = py * UNIT_SCALE;
        let r2: i64 = ROBOT_RADIUS_INT * ROBOT_RADIUS_INT;
        let o0 = i != 0 && dist_sq_i64(self.simu.robots[0].x, self.simu.robots[0].y, sx, sy) < r2;
        let o1 = i != 1 && dist_sq_i64(self.simu.robots[1].x, self.simu.robots[1].y, sx, sy) < r2;
        let o2 = i != 2 && dist_sq_i64(self.simu.robots[2].x, self.simu.robots[2].y, sx, sy) < r2;
        let o3 = i != 3 && dist_sq_i64(self.simu.robots[3].x, self.simu.robots[3].y, sx, sy) < r2;
        let c0 = match &self.referee.tasks.tasks[0].penalty {
            Some(p) => p.spot == s,
            None => false,
        };
        let c1 = match &self.referee.tasks.tasks[1].penalty {
            Some(p) => p.spot == s,
            None => false,
        };
        let c2 = match &self.referee.tasks.tasks[2].penalty {
            Some(p) => p.spot == s,
            None => false,
        };
        let c3 = match &self.referee.tasks.tasks[3].penalty {
            Some(p) => p.spot == s,
            None => false,
        };
        let b = o0 || o1 || o2 || o3 || c0 || c1 || c2 || c3;
        proof {
            let ii = id.index_spec();
            let si = s as int;
            if b {
                assert(self.spot_blocked(ii, si));
            } else {
                assert forall|j: int|
                    0 <= j < 4 implies !(j != ii && dist_sq_spec(
                    (#[trigger] self.simu.robots[j]).x as int,
                    self.simu.robots[j].y as int,
                    spot_pos_spec(si).0 * UNIT_SCALE,
                    spot_pos_spec(si).1 * UNIT_SCALE,
                ) < (ROBOT_RADIUS_INT as int) * (ROBOT_RADIUS_INT as int)) by {
                    if j == 0 {
                    } else if j == 1 {
                    } else if j == 2 {
                    } else {
                    }
                }
                assert forall|j: int|
                    0 <= j < 4 implies !((#[trigger] self.referee.tasks.tasks[j].penalty) is Some
                    && self.referee.tasks.tasks[j].penalty->0.spot == si) by {
                    if j == 0 {
                    } else if j == 1 {
                    } else if j == 2 {
                    } else {
                    }
                }
                assert(!self.spot_blocked(ii, si));
            }
        }
        b
    }

    /// Returns the squared distance from robot `id` to spot `s`.
    fn spot_dist_exec(&self, id: Robot, s: usize) -> (d: i64)
        requires
            self.wf(),
            s < NUM_PENALTY_SPOTS,
        ensures
            d == self.spot_dist_sq(id.index_spec(), s as int),
    {
        let i = id.index();
        let (px, py) = penalty_spot(s);
        dist_sq_i64(self.simu.robots[i].x, self.simu.robots[i].y, px * UNIT_SCALE, py * UNIT_SCALE)
    }

    /// Assigns or extends a penalty for robot `id`.
    ///
    /// If the robot is already penalized, the reason is replaced and the
    /// expiry extended by one penalty duration; no second penalty is ever
    /// created and the stored command is kept (an extension is not a
    /// start). Otherwise the eligible spot farthest from the robot is
    /// claimed (ties broken by spot order), falling back to spot zero when
    /// none is eligible, the penalty expires one duration from now, and
    /// the robot's stored command is cleared to zero.
    pub fn penalize(&mut self, id: Robot, reason: &str)
        requires
            old(self).wf(),
        ensures
            final(self).wf(),
            final(self).simu == old(self).simu,
            final(self).referee.teams == old(self).referee.teams,
            final(self).referee.state == old(self).referee.state,
            final(self).referee.with_ball == old(self).referee.with_ball,
            final(self).referee.blue_team_positive == old(self).referee.blue_team_positive,
            forall|j: int|
                0 <= j < 4 && j != id.index_spec() ==> #[trigger] final(self).referee.tasks.tasks[j]
                    == old(self).referee.tasks.tasks[j],
            final(self).referee.tasks.tasks[id.index_spec()].kick == old(
                self,
            ).referee.tasks.tasks[id.index_spec()].kick,
            ({
                let i = id.index_spec();
                let t0 = old(self).referee.tasks.tasks[i].penalty;
                let q = final(self).referee.tasks.tasks[i].penalty;
                match t0 {
                    Some(p) => {
                        &&& q is Some
                        &&& q->0.reason@ == reason@
                        &&& q->0.spot == p.spot
                        &&& q->0.end == GC::end_plus_spec(p.end)
                        &&& final(self).referee.tasks.tasks[i].control == old(
                            self,
                        ).referee.tasks.tasks[i].control
                    },
                    None => {
                        &&& q is Some
                        &&& q->0.reason@ == reason@
                        &&& q->0.end == GC::end_plus_spec(old(self).simu.t)
                        &&& old(self).is_chosen_spot(i, q->0.spot as int)
                        &&& final(self).referee.tasks.tasks[i].control
                            == CommandTarget::zero_spec()
                    },
                }
            }),
            crate::referee::spots_exclusive(old(self).referee.tasks) ==> crate::referee::spots_exclusive(
                final(self).referee.tasks,
            ),
    {
        let i = id.index();
        let existing: Option<(u64, usize)> = match &self.referee.tasks.tasks[i].penalty {
            Some(p) => Some((p.end, p.spot)),
            None => None,
        };
        let control = self.referee.tasks.tasks[i].control;
        let kick = self.referee.tasks.tasks[i].kick;
        if let Some((end, spot)) = existing {
            let q = Penalty {
                reason: reason.to_owned(),
                end: GC::end_plus_duration(end),
                spot,
            };
            self.referee.tasks.tasks[i] = RobotTasks { control, kick, penalty: Some(q) };
            return;
        }
        // A penalty start discards the external command at once.
        let control = CommandTarget::zero();
        let mut best_spot: usize = 0;
        let mut best_d: i64 = 0;
        let mut found: bool = false;
        let mut s: usize = 0;
        while s < NUM_PENALTY_SPOTS
            invariant
                self.wf(),
                *self == *old(self),
                s <= NUM_PENALTY_SPOTS,
                i == id.index_spec(),
                !found ==> forall|k: int|
                    0 <= k < s ==> #[trigger] self.spot_blocked(i as int, k),
                found ==> {
                    &&& best_spot < s
                    &&& !self.spot_blocked(i as int, best_spot as int)
                    &&& best_d == self.spot_dist_sq(i as int, best_spot as int)
                    &&& forall|k: int|
                        0 <= k < s && !(#[trigger] self.spot_blocked(i as int, k))
                            ==> self.spot_dist_sq(i as int, k) <= best_d
                    &&& forall|k: int|
                        0 <= k < best_spot && !(#[trigger] self.spot_blocked(i as int, k))
                            ==> self.spot_dist_sq(i as int, k) < best_d
                },
            decreases NUM_PENALTY_SPOTS - s,
        {
            let blocked = self.spot_blocked_exec(id, s);
            if !blocked {
                let d = self.spot_dist_exec(id, s);
                if !found || d > best_d {
                    found = true;
                    best_spot = s;
                    best_d = d;
                }
            }
            s = s + 1;
        }
        let spot: usize = if found {
            best_spot
        } else {
            0
        };
        let t = self.simu.t;
        let q = Penalty { reason: reason.to_owned(), end: GC::end_plus_duration(t), spot };
        proof {
            if found {
                assert(!old(self).no_spot_eligible(i as int)) by {
                    assert(!old(self).spot_blocked(i as int, best_spot as int));
                }
            } else {
                assert(old(self).no_spot_eligible(i as int));
            }
        }
        self.referee.tasks.tasks[i] = RobotTasks { control, kick, penalty: Some(q) };
    }

/// The ball stands in the negative-side goal mouth: the green team
    /// scores.
    pub open spec fn goal_green_spec(self) -> bool {
        &&& abs_spec(self.simu.ball_y as int) < GOAL_HEIGHT_INT as int / 2
        &&& (self.simu.ball_x as int) < -(FIELD_X_INT as int / 2)
    }

    /// The ball stands in the positive-side goal mouth: the blue team
    /// scores.
    pub open spec fn goal_blue_spec(self) -> bool {
        &&& abs_spec(self.simu.ball_y as int) < GOAL_HEIGHT_INT as int / 2
        &&& !((self.simu.ball_x as int) < -(FIELD_X_INT as int / 2))
        &&& (self.simu.ball_x as int) > FIELD_X_INT as int / 2
    }

    /// Some goal is scored this tick.
    pub open spec fn any_goal_spec(self) -> bool {
        self.goal_green_spec() || self.goal_blue_spec()
    }

    /// The ball's x coordinate after the goal phase: the center after a
    /// goal reset, untouched otherwise.
    pub open spec fn ball_mid_x(self) -> int {
        if self.any_goal_spec() {
            0
        } else {
            self.simu.ball_x as int
        }
    }

    /// The ball's y coordinate after the goal phase.
    pub open spec fn ball_mid_y(self) -> int {
        if self.any_goal_spec() {
            0
        } else {
            self.simu.ball_y as int
        }
    }

    /// The ball has left the field without scoring.
    pub open spec fn ball_oob_spec(self) -> bool {
        abs_spec(self.ball_mid_y()) > FIELD_Y_INT as int / 2 || abs_spec(self.ball_mid_x())
            > FIELD_X_INT as int / 2
    }

    /// The ball's x coordinate at the end of the tick: the boundary-restart
    /// dot matching the exit signs when it went out, else unchanged.
    pub open spec fn ball_final_x(self) -> int {
        if self.ball_oob_spec() {
            DOT_X_INT * sign_pos_spec(self.ball_mid_x())
        } else {
            self.ball_mid_x()
        }
    }

    /// The ball's y coordinate at the end of the tick.
    pub open spec fn ball_final_y(self) -> int {
        if self.ball_oob_spec() {
            DOT_Y_INT * sign_pos_spec(self.ball_mid_y())
        } else {
            self.ball_mid_y()
        }
    }

    /// Robot `i`'s pose at the end of the tick: its kickoff pose after a
    /// goal reset, its observed pose otherwise.
    pub open spec fn robot_final(self, i: int) -> BodyState {
        if self.any_goal_spec() {
            Simulation::kickoff_robot(i)
        } else {
            self.simu.robots[i]
        }
    }

    /// Robot `i`'s task entry after the goal phase: the penalty is cleared
    /// by a goal, everything else kept.
    pub open spec fn task_mid(self, i: int) -> RobotTasks {
        if self.any_goal_spec() {
            RobotTasks {
                control: self.referee.tasks.tasks[i].control,
                kick: self.referee.tasks.tasks[i].kick,
                penalty: None,
            }
        } else {
            self.referee.tasks.tasks[i]
        }
    }

    /// Robot `i` counts as away from the ball this tick: it stands farther
    /// than the possession radius, or it is penalized.
    pub open spec fn robot_away_spec(self, i: int) -> bool {
        ||| dist_sq_spec(
            self.robot_final(i).x as int,
            self.robot_final(i).y as int,
            self.ball_final_x(),
            self.ball_final_y(),
        ) > (BALL_ABUSE_RADIUS_INT as int) * (BALL_ABUSE_RADIUS_INT as int)
        ||| self.task_mid(i).penalty is Some
    }

    /// The last-away mark of robot `i` after this tick.
    pub open spec fn wb_after_spec(self, i: int) -> u64 {
        if self.robot_away_spec(i) {
            self.simu.t
        } else {
            self.referee.with_ball[i]
        }
    }

    /// Robot `i` exceeds the possession-time limit this tick and is
    /// penalized for ball abuse.
    pub open spec fn abuse_spec(self, i: int) -> bool {
        self.simu.t - self.wb_after_spec(i) > BALL_ABUSE_TIME
    }

    /// A score incremented by one, saturating.
    pub open spec fn inc_score_spec(s: u64) -> u64 {
        if s < u64::MAX {
            (s + 1) as u64
        } else {
            u64::MAX
        }
    }

    /// How robot `i`'s task entry looks after the whole referee evaluation,
    /// relative to the pre-evaluation state `pre`: a fresh ball-abuse
    /// penalty with steering installed, an unchanged idle entry, an expired
    /// penalty cleared with the command zeroed, or a running penalty kept
    /// with steering installed.
    pub open spec fn task_transition(pre: GC, post_t: RobotTasks, i: int) -> bool {
        let tm = pre.task_mid(i);
        let t = pre.simu.t;
        if pre.abuse_spec(i) {
            &&& post_t.kick == tm.kick
            &&& post_t.penalty is Some
            &&& post_t.penalty->0.reason@ == "Ball abuse"@
            &&& post_t.penalty->0.end == GC::end_plus_spec(t)
            &&& post_t.penalty->0.spot < NUM_PENALTY_SPOTS
            &&& post_t.control == steering_spec(pre.robot_final(i), post_t.penalty->0.spot as int)
        } else {
            match tm.penalty {
                None => post_t == tm,
                Some(p) => if p.end <= t {
                    post_t == (RobotTasks {
                        control: CommandTarget::zero_spec(),
                        kick: tm.kick,
                        penalty: None,
                    })
                } else {
                    &&& post_t.penalty == Some(p)
                    &&& post_t.kick == tm.kick
                    &&& post_t.control == steering_spec(pre.robot_final(i), p.spot as int)
                },
            }
        }
    }

    /// Clears every active penalty, keeping commands and kicks.
    fn clear_all_penalties(&mut self)
        requires
            old(self).wf(),
        ensures
            final(self).wf(),
            final(self).simu == old(self).simu,
            final(self).referee.teams == old(self).referee.teams,
            final(self).referee.state == old(self).referee.state,
            final(self).referee.with_ball == old(self).referee.with_ball,
            final(self).referee.blue_team_positive == old(self).referee.blue_team_positive,
            forall|j: int|
                0 <= j < 4 ==> #[trigger] final(self).referee.tasks.tasks[j] == (RobotTasks {
                    control: old(self).referee.tasks.tasks[j].control,
                    kick: old(self).referee.tasks.tasks[j].kick,
                    penalty: None,
                }),
    {
        let mut j: usize = 0;
        while j < 4
            invariant
                old(self).wf(),
                self.simu == old(self).simu,
                self.referee.teams == old(self).referee.teams,
                self.referee.state == old(self).referee.state,
                self.referee.with_ball == old(self).referee.with_ball,
                self.referee.blue_team_positive == old(self).referee.blue_team_positive,
                j <= 4,
                forall|k: int|
                    0 <= k < j ==> #[trigger] self.referee.tasks.tasks[k] == (RobotTasks {
                        control: old(self).referee.tasks.tasks[k].control,
                        kick: old(self).referee.tasks.tasks[k].kick,
                        penalty: None,
                    }),
                forall|k: int|
                    j <= k < 4 ==> #[trigger] self.referee.tasks.tasks[k] == old(
                        self,
                    ).referee.tasks.tasks[k],
            decreases 4 - j,
        {
            let control = self.referee.tasks.tasks[j].control;
            let kick = self.referee.tasks.tasks[j].kick;
            self.referee.tasks.tasks[j] = RobotTasks { control, kick, penalty: None };
            j = j + 1;
        }
    }

    /// Increments one team's score, saturating.
    fn bump_score(&mut self, team: usize)
        requires
            old(self).wf(),
            team < 2,
        ensures
            final(self).wf(),
            final(self).simu == old(self).simu,
            final(self).referee.tasks == old(self).referee.tasks,
            final(self).referee.state == old(self).referee.state,
            final(self).referee.with_ball == old(self).referee.with_ball,
            final(self).referee.blue_team_positive == old(self).referee.blue_team_positive,
            final(self).referee.teams[team as int].score == GC::inc_score_spec(
                old(self).referee.teams[team as int].score,
            ),
            final(self).referee.teams[team as int].name == old(self).referee.teams[
                team as int
            ].name,
            final(self).referee.teams[team as int].key == old(self).referee.teams[team as int].key,
            forall|k: int|
                0 <= k < 2 && k != team ==> #[trigger] final(self).referee.teams[k] == old(
                    self,
                ).referee.teams[k],
    {
        let name = self.referee.teams[team].name.clone();
        let key = self.referee.teams[team].key.clone();
        let score = self.referee.teams[team].score;
        let new_score: u64 = if score < u64::MAX {
            score + 1
        } else {
            u64::MAX
        };
        self.referee.teams[team] = TeamInfo { name, key, score: new_score };
    }

    /// Possession bookkeeping for one robot: refreshes its last-away mark,
    /// and penalizes it for ball abuse once the possession-time limit is
    /// exceeded.
    fn possession_one(&mut self, id: Robot)
        requires
            old(self).wf(),
        ensures
            final(self).wf(),
            final(self).simu == old(self).simu,
            final(self).referee.teams == old(self).referee.teams,
            final(self).referee.state == old(self).referee.state,
            final(self).referee.blue_team_positive == old(self).referee.blue_team_positive,
            forall|j: int|
                0 <= j < 4 && j != id.index_spec() ==> #[trigger] final(self).referee.with_ball[j]
                    == old(self).referee.with_ball[j],
            forall|j: int|
                0 <= j < 4 && j != id.index_spec() ==> #[trigger] final(self).referee.tasks.tasks[j]
                    == old(self).referee.tasks.tasks[j],
            ({
                let i = id.index_spec();
                let pre = *old(self);
                let away = pre.robot_away_now(i);
                let wb = if away {
                    pre.simu.t
                } else {
                    pre.referee.with_ball[i]
                };
                let abuse = pre.simu.t - wb > BALL_ABUSE_TIME;
                &&& final(self).referee.with_ball[i] == wb
                &&& if abuse {
                    let q = final(self).referee.tasks.tasks[i].penalty;
                    &&& q is Some
                    &&& q->0.reason@ == "Ball abuse"@
                    &&& q->0.end == GC::end_plus_spec(pre.simu.t)
                    &&& q->0.spot < NUM_PENALTY_SPOTS
                    &&& final(self).referee.tasks.tasks[i].control == CommandTarget::zero_spec()
                    &&& final(self).referee.tasks.tasks[i].kick == pre.referee.tasks.tasks[i].kick
                } else {
                    final(self).referee.tasks.tasks[i] == pre.referee.tasks.tasks[i]
                }
            }),
            crate::referee::spots_exclusive(old(self).referee.tasks)
                ==> crate::referee::spots_exclusive(final(self).referee.tasks),
    {
        let i = id.index();
        let away = {
            let d = dist_sq_i64(
                self.simu.robots[i].x,
                self.simu.robots[i].y,
                self.simu.ball_x,
                self.simu.ball_y,
            );
            d > BALL_ABUSE_RADIUS_INT * BALL_ABUSE_RADIUS_INT
                || self.referee.tasks.tasks[i].penalty.is_some()
        };
        if away {
            self.referee.with_ball[i] = self.simu.t;
        }
        if self.simu.t - self.referee.with_ball[i] > BALL_ABUSE_TIME {
            self.penalize(id, "Ball abuse");
        }
    }

    /// Robot `i` counts as away from the ball in the current state.
    pub open spec fn robot_away_now(self, i: int) -> bool {
        ||| dist_sq_spec(
            self.simu.robots[i].x as int,
            self.simu.robots[i].y as int,
            self.simu.ball_x as int,
            self.simu.ball_y as int,
        ) > (BALL_ABUSE_RADIUS_INT as int) * (BALL_ABUSE_RADIUS_INT as int)
        ||| self.referee.tasks.tasks[i].penalty is Some
    }

    /// Penalty lifecycle for one robot: an expired penalty is cleared and
    /// its command zeroed; a running one installs the return-to-spot
    /// steering as the robot's command.
    fn lifecycle_one(&mut self, id: Robot)
        requires
            old(self).wf(),
        ensures
            final(self).wf(),
            final(self).simu == old(self).simu,
            final(self).referee.teams == old(self).referee.teams,
            final(self).referee.state == old(self).referee.state,
            final(self).referee.with_ball == old(self).referee.with_ball,
            final(self).referee.blue_team_positive == old(self).referee.blue_team_positive,
            forall|j: int|
                0 <= j < 4 && j != id.index_spec() ==> #[trigger] final(self).referee.tasks.tasks[j]
                    == old(self).referee.tasks.tasks[j],
            ({
                let i = id.index_spec();
                let pre = *old(self);
                let t = pre.simu.t;
                match pre.referee.tasks.tasks[i].penalty {
                    None => final(self).referee.tasks.tasks[i] == pre.referee.tasks.tasks[i],
                    Some(p) => if p.end <= t {
                        final(self).referee.tasks.tasks[i] == (RobotTasks {
                            control: CommandTarget::zero_spec(),
                            kick: pre.referee.tasks.tasks[i].kick,
                            penalty: None,
                        })
                    } else {
                        &&& final(self).referee.tasks.tasks[i].penalty == Some(p)
                        &&& final(self).referee.tasks.tasks[i].kick
                            == pre.referee.tasks.tasks[i].kick
                        &&& final(self).referee.tasks.tasks[i].control == steering_spec(
                            pre.simu.robots[i],
                            p.spot as int,
                        )
                    },
                }
            }),
            crate::referee::spots_exclusive(old(self).referee.tasks)
                ==> crate::referee::spots_exclusive(final(self).referee.tasks),
    {
        let i = id.index();
        let existing: Option<(u64, usize)> = match &self.referee.tasks.tasks[i].penalty {
            Some(p) => Some((p.end, p.spot)),
            None => None,
        };
        if let Some((end, spot)) = existing {
            let kick = self.referee.tasks.tasks[i].kick;
            if end <= self.simu.t {
                self.referee.tasks.tasks[i] = RobotTasks {
                    control: CommandTarget::zero(),
                    kick,
                    penalty: None,
                };
            } else {
                let steer = steering_command(&self.simu.robots[i], spot);
                let penalty = match &self.referee.tasks.tasks[i].penalty {
                    Some(p) => Some(p.clone_penalty()),
                    None => None,
                };
                self.referee.tasks.tasks[i] = RobotTasks { control: steer, kick, penalty };
            }
        }
    }

/// Runs the referee evaluation for the current tick, only while play is
    /// running: goal detection (score, penalty clearing, world reset),
    /// out-of-bounds handling, possession-abuse tracking and the penalty
    /// lifecycle. Returns what the caller must still apply to the solver: a
    /// reset after a goal, and a ball teleport after an out-of-bounds.
    pub fn referee_step(&mut self) -> (ev: RefereeEvents)
        requires
            old(self).wf(),
            old(self).simu.t <= u64::MAX - PENALTY_DURATION,
        ensures
            final(self).wf(),
            final(self).simu.t == old(self).simu.t,
            final(self).referee.state == old(self).referee.state,
            final(self).referee.blue_team_positive == old(self).referee.blue_team_positive,
            !(old(self).referee.state matches MatchState::Running(_)) ==> {
                &&& *final(self) == *old(self)
                &&& ev == (RefereeEvents {
                    blue_scored: false,
                    green_scored: false,
                    reset: false,
                    ball_teleport: None,
                })
            },
            (old(self).referee.state matches MatchState::Running(_)) ==> {
                let pre = *old(self);
                &&& ev.green_scored == pre.goal_green_spec()
                &&& ev.blue_scored == pre.goal_blue_spec()
                &&& ev.reset == pre.any_goal_spec()
                &&& ev.ball_teleport == (if pre.ball_oob_spec() {
                    Some((pre.ball_final_x() as i64, pre.ball_final_y() as i64))
                } else {
                    Option::<(i64, i64)>::None
                })
                &&& final(self).referee.teams[1].score == (if pre.goal_green_spec() {
                    GC::inc_score_spec(pre.referee.teams[1].score)
                } else {
                    pre.referee.teams[1].score
                })
                &&& final(self).referee.teams[0].score == (if pre.goal_blue_spec() {
                    GC::inc_score_spec(pre.referee.teams[0].score)
                } else {
                    pre.referee.teams[0].score
                })
                &&& final(self).referee.teams[0].name == pre.referee.teams[0].name
                &&& final(self).referee.teams[1].name == pre.referee.teams[1].name
                &&& final(self).referee.teams[0].key == pre.referee.teams[0].key
                &&& final(self).referee.teams[1].key == pre.referee.teams[1].key
                &&& final(self).simu.ball_x == pre.ball_final_x()
                &&& final(self).simu.ball_y == pre.ball_final_y()
                &&& forall|i: int|
                    0 <= i < 4 ==> #[trigger] final(self).simu.robots[i] == pre.robot_final(i)
                &&& forall|i: int|
                    0 <= i < 4 ==> #[trigger] final(self).simu.kickers[i] == (
                    if pre.any_goal_spec() {
                        Simulation::kickoff_kicker(i)
                    } else {
                        pre.simu.kickers[i]
                    })
                &&& forall|i: int|
                    0 <= i < 4 ==> #[trigger] final(self).simu.kicker_timer[i] == (
                    if pre.any_goal_spec() {
                        0u64
                    } else {
                        pre.simu.kicker_timer[i]
                    })
                &&& forall|i: int|
                    0 <= i < 4 ==> #[trigger] final(self).referee.with_ball[i]
                        == pre.wb_after_spec(i)
                &&& forall|i: int|
                    0 <= i < 4 ==> GC::task_transition(
                        pre,
                        #[trigger] final(self).referee.tasks.tasks[i],
                        i,
                    )
            },
            crate::referee::spots_exclusive(old(self).referee.tasks)
                ==> crate::referee::spots_exclusive(final(self).referee.tasks),
    {
        match self.referee.state {
            MatchState::Running(_) => {},
            _ => {
                return RefereeEvents {
                    blue_scored: false,
                    green_scored: false,
                    reset: false,
                    ball_teleport: None,
                };
            },
        }
        let mut green_scored = false;
        let mut blue_scored = false;
        let mut reset = false;
        let mut ball_teleport: Option<(i64, i64)> = None;
        let bx = self.simu.ball_x;
        let by = self.simu.ball_y;
        if abs_i64(by) < GOAL_HEIGHT_INT / 2 {
            if bx < -(FIELD_X_INT / 2) {
                self.bump_score(1);
                self.clear_all_penalties();
                self.simu.reset();
                green_scored = true;
                reset = true;
            } else if bx > FIELD_X_INT / 2 {
                self.bump_score(0);
                self.clear_all_penalties();
                self.simu.reset();
                blue_scored = true;
                reset = true;
            }
        }
        let mx = self.simu.ball_x;
        let my = self.simu.ball_y;
        if abs_i64(my) > FIELD_Y_INT / 2 || abs_i64(mx) > FIELD_X_INT / 2 {
            let nx: i64 = DOT_X_INT * sign_pos_i64(mx);
            let ny: i64 = DOT_Y_INT * sign_pos_i64(my);
            self.simu.teleport_ball(nx, ny);
            ball_teleport = Some((nx, ny));
        }
        self.possession_one(Robot::Blue1);
        self.possession_one(Robot::Blue2);
        self.possession_one(Robot::Green1);
        self.possession_one(Robot::Green2);
        self.lifecycle_one(Robot::Blue1);
        self.lifecycle_one(Robot::Blue2);
        self.lifecycle_one(Robot::Green1);
        self.lifecycle_one(Robot::Green2);
        RefereeEvents { blue_scored, green_scored, reset, ball_teleport }
    }

    /// Completes one tick: copies the solver observation into the mirror,
    /// advances the clock and the kick timers, and runs the referee
    /// evaluation on the observed state.
    pub fn step_observe(&mut self, obs: &Observation) -> (ev: RefereeEvents)
        requires
            old(self).wf(),
            obs.wf(),
            old(self).simu.t < u64::MAX - PENALTY_DURATION,
        ensures
            final(self).wf(),
            final(self).simu.t == old(self).simu.t + 1,
            ({
                let mid = GC {
                    simu: Simulation {
                        ball_x: obs.ball_x,
                        ball_y: obs.ball_y,
                        robots: obs.robots,
                        kickers: obs.kickers,
                        kicker_timer: final(self).simu.kicker_timer,
                        t: (old(self).simu.t + 1) as u64,
                    },
                    referee: old(self).referee,
                };
                (old(self).referee.state matches MatchState::Running(_)) ==> {
                    &&& ev.green_scored == mid.goal_green_spec()
                    &&& ev.blue_scored == mid.goal_blue_spec()
                    &&& ev.reset == mid.any_goal_spec()
                    &&& final(self).simu.ball_x == mid.ball_final_x()
                    &&& final(self).simu.ball_y == mid.ball_final_y()
                    &&& forall|i: int|
                        0 <= i < 4 ==> #[trigger] final(self).simu.robots[i] == mid.robot_final(i)
                    &&& forall|i: int|
                        0 <= i < 4 ==> #[trigger] final(self).referee.with_ball[i]
                            == mid.wb_after_spec(i)
                    &&& forall|i: int|
                        0 <= i < 4 ==> GC::task_transition(
                            mid,
                            #[trigger] final(self).referee.tasks.tasks[i],
                            i,
                        )
                    &&& final(self).referee.teams[1].score == (if mid.goal_green_spec() {
                        GC::inc_score_spec(mid.referee.teams[1].score)
                    } else {
                        mid.referee.teams[1].score
                    })
                    &&& final(self).referee.teams[0].score == (if mid.goal_blue_spec() {
                        GC::inc_score_spec(mid.referee.teams[0].score)
                    } else {
                        mid.referee.teams[0].score
                    })
                }
            }),
            final(self).referee.state == old(self).referee.state,
            final(self).referee.blue_team_positive == old(self).referee.blue_team_positive,
            !(old(self).referee.state matches MatchState::Running(_)) ==> {
                &&& final(self).simu.ball_x == obs.ball_x
                &&& final(self).simu.ball_y == obs.ball_y
                &&& final(self).simu.robots == obs.robots
                &&& final(self).referee == old(self).referee
            },
            !ev.reset ==> final(self).simu.kickers == obs.kickers,
            ev.reset ==> forall|i: int|
                0 <= i < 4 ==> #[trigger] final(self).simu.kickers[i]
                    == Simulation::kickoff_kicker(i),
            forall|i: int|
                0 <= i < 4 ==> #[trigger] final(self).simu.kicker_timer[i] == (if ev.reset {
                    0u64
                } else if old(self).simu.kicker_timer[i] > 0 {
                    (old(self).simu.kicker_timer[i] - 1) as u64
                } else {
                    0u64
                }),
            crate::referee::spots_exclusive(old(self).referee.tasks)
                ==> crate::referee::spots_exclusive(final(self).referee.tasks),
    {
        self.simu.observe(obs);
        self.simu.step();
        self.referee_step()
    }

    /// Reads one robot's pose in interface units.
    fn marker(&self, id: Robot) -> (p: Pose)
        requires
            self.wf(),
        ensures
            p == self.marker_spec(id.index_spec()),
    {
        let i = id.index();
        Pose {
            x: scale_down_i64(self.simu.robots[i].x),
            y: scale_down_i64(self.simu.robots[i].y),
            orientation: self.simu.robots[i].angle.urad,
        }
    }
}

/// Possession abuse strikes a robot at most once: while a robot carries a
/// penalty it counts as away from the ball, so its last-away mark is
/// refreshed every tick and the possession rule never fires again — one
/// "Ball abuse" penalty per offence, never a stacked or extended one.
pub proof fn lemma_penalized_never_reabused(gc: GC, i: int)
    requires
        0 <= i < 4,
        gc.task_mid(i).penalty is Some,
    ensures
        gc.wb_after_spec(i) == gc.simu.t,
        !gc.abuse_spec(i),
{
    assert(gc.robot_away_spec(i));
}

/// Spot exclusivity: starting from penalties with pairwise distinct spots,
/// a fresh penalty that found an eligible spot keeps all spots pairwise
/// distinct, because an eligible spot is claimed by no active penalty.
pub proof fn lemma_spot_exclusivity(pre: GC, post: TaskStore, i: int, q: Penalty)
    requires
        crate::referee::spots_distinct(pre.referee.tasks),
        0 <= i < 4,
        pre.referee.tasks.tasks[i].penalty is None,
        !pre.no_spot_eligible(i),
        pre.is_chosen_spot(i, q.spot as int),
        post.tasks[i].penalty == Some(q),
        forall|j: int| 0 <= j < 4 && j != i ==> #[trigger] post.tasks[j]
            == pre.referee.tasks.tasks[j],
    ensures
        crate::referee::spots_distinct(post),
{
    assert(!pre.spot_blocked(i, q.spot as int));
    assert forall|a: int, b: int|
        0 <= a < 4 && 0 <= b < 4 && a != b && (#[trigger] post.tasks[a].penalty) is Some && (
        #[trigger] post.tasks[b].penalty) is Some implies post.tasks[a].penalty->0.spot
        != post.tasks[b].penalty->0.spot by {
        if a == i {
            assert(post.tasks[b].penalty == pre.referee.tasks.tasks[b].penalty);
            if pre.referee.tasks.tasks[b].penalty->0.spot == q.spot as int {
                assert(pre.spot_blocked(i, q.spot as int));
            }
        } else if b == i {
            assert(post.tasks[a].penalty == pre.referee.tasks.tasks[a].penalty);
            if pre.referee.tasks.tasks[a].penalty->0.spot == q.spot as int {
                assert(pre.spot_blocked(i, q.spot as int));
            }
        }
    }
}

} // verus!
