//! The solver mirror: the engine's record of the rigid-body world.
//!
//! The rigid-body solver itself runs outside the library; after each solver
//! step the caller hands the observed poses back through [`Simulation::observe`].
//! Everything the rule engine reads — ball position, robot poses, kicker
//! poses, the tick counter — lives here, in solver units (interface units
//! times `UNIT_SCALE`). Orientations come with their fixed-point cosine and
//! sine, which only the observer can compute.
use vstd::prelude::*;

use crate::constants::{
    BALL_RADIUS_INT, COS_ONE, KICKER_OFFSET_INT, KICK_TICKS, ORIENT_LIMIT, PI_URAD, POS_LIMIT_INT,
    ROBOT_RADIUS_INT, UNIT_SCALE,
};
use crate::game_state::Robot;
use crate::maths::dist_sq_i64;
use crate::maths::dist_sq_spec;

verus! {

/// An observed orientation: the angle in microradians together with its
/// cosine and sine in fixed point (scale [`COS_ONE`]). The trigonometric
/// parts cannot be computed inside the engine; they are part of every
/// observation.
#[derive(Clone, Copy, PartialEq, Eq, Structural, Debug)]
pub struct AngleObs {
    pub urad: i64,
    pub cos_u: i64,
    pub sin_u: i64,
}

impl AngleObs {
    /// Bounds every observed angle must satisfy: the angle is wrapped, and
    /// the fixed-point cosine and sine lie on or inside the unit circle, so
    /// a rotation through them never lengthens a vector.
    pub open spec fn wf(self) -> bool {
        &&& -ORIENT_LIMIT <= self.urad <= ORIENT_LIMIT
        &&& -COS_ONE <= self.cos_u <= COS_ONE
        &&& -COS_ONE <= self.sin_u <= COS_ONE
        &&& self.cos_u * self.cos_u + self.sin_u * self.sin_u <= COS_ONE * COS_ONE
    }

    /// The zero angle: cosine one, sine zero.
    pub open spec fn zero_spec() -> AngleObs {
        AngleObs { urad: 0, cos_u: COS_ONE, sin_u: 0 }
    }

    /// A half turn: cosine minus one, sine zero.
    pub open spec fn half_turn_spec() -> AngleObs {
        AngleObs { urad: PI_URAD, cos_u: (-COS_ONE) as i64, sin_u: 0 }
    }

    /// Returns the zero angle.
    pub fn zero() -> (a: AngleObs)
        ensures
            a == AngleObs::zero_spec(),
            a.wf(),
    {
        AngleObs { urad: 0, cos_u: COS_ONE, sin_u: 0 }
    }

    /// Returns a half turn.
    pub fn half_turn() -> (a: AngleObs)
        ensures
            a == AngleObs::half_turn_spec(),
            a.wf(),
    {
        AngleObs { urad: PI_URAD, cos_u: -COS_ONE, sin_u: 0 }
    }
}

/// The observed state of one rigid body, in solver units.
#[derive(Clone, Copy, PartialEq, Eq, Structural, Debug)]
pub struct BodyState {
    pub x: i64,
    pub y: i64,
    pub angle: AngleObs,
}

impl BodyState {
    /// Bounds every observed body must satisfy.
    pub open spec fn wf(self) -> bool {
        &&& -POS_LIMIT_INT <= self.x <= POS_LIMIT_INT
        &&& -POS_LIMIT_INT <= self.y <= POS_LIMIT_INT
        &&& self.angle.wf()
    }
}

/// One observation of the whole world, as read back from the solver after a
/// step: ball position, robot poses and kicker poses, in solver units.
#[derive(Clone, Copy, Debug)]
pub struct Observation {
    pub ball_x: i64,
    pub ball_y: i64,
    pub robots: [BodyState; 4],
    pub kickers: [BodyState; 4],
}

impl Observation {
    /// Bounds every observation must satisfy.
    pub open spec fn wf(self) -> bool {
        &&& -POS_LIMIT_INT <= self.ball_x <= POS_LIMIT_INT
        &&& -POS_LIMIT_INT <= self.ball_y <= POS_LIMIT_INT
        &&& forall|i: int| 0 <= i < 4 ==> (#[trigger] self.robots[i]).wf()
        &&& forall|i: int| 0 <= i < 4 ==> (#[trigger] self.kickers[i]).wf()
    }
}

/// A stable handle to one of the nine bodies of the world. Handles stay
/// valid across resets for the whole lifetime of a session.
#[derive(Clone, Copy, PartialEq, Eq, Structural, Debug)]
pub enum EntityHandle {
    Ball,
    Robot(Robot),
    Kicker(Robot),
}

/// The mirror of the rigid-body world: ball, four robots, four kickers, the
/// per-robot kick timers and the tick counter. All positions are in solver
/// units.
#[derive(Clone, Copy, Debug)]
pub struct Simulation {
    pub ball_x: i64,
    pub ball_y: i64,
    pub robots: [BodyState; 4],
    pub kickers: [BodyState; 4],
    pub kicker_timer: [u64; 4],
    /// The current tick.
    pub t: u64,
}

impl Simulation {
    /// Bounds every mirror state must satisfy.
    pub open spec fn wf(self) -> bool {
        &&& -POS_LIMIT_INT <= self.ball_x <= POS_LIMIT_INT
        &&& -POS_LIMIT_INT <= self.ball_y <= POS_LIMIT_INT
        &&& forall|i: int| 0 <= i < 4 ==> (#[trigger] self.robots[i]).wf()
        &&& forall|i: int| 0 <= i < 4 ==> (#[trigger] self.kickers[i]).wf()
    }

    /// The default pose of robot `i` at kickoff, in solver units.
    pub open spec fn kickoff_robot(i: int) -> BodyState {
        BodyState {
            x: (crate::constants::default_robot_x(i) * UNIT_SCALE) as i64,
            y: 0,
            angle: if i < 2 {
                AngleObs::zero_spec()
            } else {
                AngleObs::half_turn_spec()
            },
        }
    }

    /// The default pose of kicker `i` at kickoff: in front of its robot,
    /// along the robot's forward axis.
    pub open spec fn kickoff_kicker(i: int) -> BodyState {
        BodyState {
            x: (crate::constants::default_robot_x(i) * UNIT_SCALE + if i < 2 {
                KICKER_OFFSET_INT as int
            } else {
                -(KICKER_OFFSET_INT as int)
            }) as i64,
            y: 0,
            angle: if i < 2 {
                AngleObs::zero_spec()
            } else {
                AngleObs::half_turn_spec()
            },
        }
    }

    /// The world is at the kickoff layout: ball at the center, every robot
    /// and kicker at its default pose.
    pub open spec fn at_kickoff(self) -> bool {
        &&& self.ball_x == 0
        &&& self.ball_y == 0
        &&& forall|i: int| 0 <= i < 4 ==> #[trigger] self.robots[i] == Self::kickoff_robot(i)
        &&& forall|i: int| 0 <= i < 4 ==> #[trigger] self.kickers[i] == Self::kickoff_kicker(i)
    }

    /// Builds the world at the kickoff layout, at tick zero, with all
    /// kickers retracted.
    pub fn new() -> (s: Simulation)
        ensures
            s.wf(),
            s.at_kickoff(),
            s.t == 0,
            forall|i: int| 0 <= i < 4 ==> #[trigger] s.kicker_timer[i] == 0,
    {
        let robots: [BodyState; 4] = [
            BodyState { x: -9_150_000, y: 0, angle: AngleObs::zero() },
            BodyState { x: -4_575_000, y: 0, angle: AngleObs::zero() },
            BodyState { x: 4_575_000, y: 0, angle: AngleObs::half_turn() },
            BodyState { x: 9_150_000, y: 0, angle: AngleObs::half_turn() },
        ];
        let kickers: [BodyState; 4] = [
            BodyState { x: -9_150_000 + KICKER_OFFSET_INT, y: 0, angle: AngleObs::zero() },
            BodyState { x: -4_575_000 + KICKER_OFFSET_INT, y: 0, angle: AngleObs::zero() },
            BodyState { x: 4_575_000 - KICKER_OFFSET_INT, y: 0, angle: AngleObs::half_turn() },
            BodyState { x: 9_150_000 - KICKER_OFFSET_INT, y: 0, angle: AngleObs::half_turn() },
        ];
        let s = Simulation {
            ball_x: 0,
            ball_y: 0,
            robots,
            kickers,
            kicker_timer: [0, 0, 0, 0],
            t: 0,
        };
        proof {
            assert forall|i: int| 0 <= i < 4 implies #[trigger] s.robots[i]
                == Self::kickoff_robot(i) by {
                assert(s.robots[0] == Self::kickoff_robot(0));
                assert(s.robots[1] == Self::kickoff_robot(1));
                assert(s.robots[2] == Self::kickoff_robot(2));
                assert(s.robots[3] == Self::kickoff_robot(3));
            }
            assert forall|i: int| 0 <= i < 4 implies #[trigger] s.kickers[i]
                == Self::kickoff_kicker(i) by {
                assert(s.kickers[0] == Self::kickoff_kicker(0));
                assert(s.kickers[1] == Self::kickoff_kicker(1));
                assert(s.kickers[2] == Self::kickoff_kicker(2));
                assert(s.kickers[3] == Self::kickoff_kicker(3));
            }
        }
        s
    }

    /// Copies an observation read back from the solver into the mirror. The
    /// tick counter and the kick timers are not touched.
    pub fn observe(&mut self, obs: &Observation)
        requires
            obs.wf(),
        ensures
            final(self).wf(),
            final(self).ball_x == obs.ball_x,
            final(self).ball_y == obs.ball_y,
            final(self).robots == obs.robots,
            final(self).kickers == obs.kickers,
            final(self).kicker_timer == old(self).kicker_timer,
            final(self).t == old(self).t,
    {
        self.ball_x = obs.ball_x;
        self.ball_y = obs.ball_y;
        self.robots = obs.robots;
        self.kickers = obs.kickers;
    }

    /// Advances the tick counter by one and lets every running kick timer
    /// count down. The solver step itself happens outside; this is the
    /// engine's bookkeeping for it.
    pub fn step(&mut self)
        requires
            old(self).t < u64::MAX,
        ensures
            final(self).t == old(self).t + 1,
            final(self).ball_x == old(self).ball_x,
            final(self).ball_y == old(self).ball_y,
            final(self).robots == old(self).robots,
            final(self).kickers == old(self).kickers,
            forall|i: int|
                0 <= i < 4 ==> #[trigger] final(self).kicker_timer[i] == (if old(
                    self,
                ).kicker_timer[i] > 0 {
                    (old(self).kicker_timer[i] - 1) as u64
                } else {
                    0u64
                }),
    {
        self.t = self.t + 1;
        let mut i: usize = 0;
        while i < 4
            invariant
                i <= 4,
                self.t == old(self).t + 1,
                self.ball_x == old(self).ball_x,
                self.ball_y == old(self).ball_y,
                self.robots == old(self).robots,
                self.kickers == old(self).kickers,
                forall|j: int|
                    0 <= j < i ==> #[trigger] self.kicker_timer[j] == (if old(
                        self,
                    ).kicker_timer[j] > 0 {
                        (old(self).kicker_timer[j] - 1) as u64
                    } else {
                        0u64
                    }),
                forall|j: int|
                    i <= j < 4 ==> #[trigger] self.kicker_timer[j] == old(self).kicker_timer[j],
            decreases 4 - i,
        {
            if self.kicker_timer[i] > 0 {
                self.kicker_timer[i] = self.kicker_timer[i] - 1;
            }
            i = i + 1;
        }
    }

    /// Returns the handle of the ball.
    pub fn get_ball_handle(&self) -> (h: EntityHandle)
        ensures
            h == EntityHandle::Ball,
    {
        EntityHandle::Ball
    }

    /// Returns the handle of a robot.
    pub fn get_robot_handle(&self, id: Robot) -> (h: EntityHandle)
        ensures
            h == EntityHandle::Robot(id),
    {
        EntityHandle::Robot(id)
    }

    /// Sets the pose of one body directly, bypassing the solver. With `None`
    /// the orientation is kept. The caller is expected to zero the body's
    /// velocities in the solver as well.
    pub fn teleport_entity(&mut self, entity: EntityHandle, x: i64, y: i64, r: Option<AngleObs>)
        requires
            old(self).wf(),
            -POS_LIMIT_INT <= x <= POS_LIMIT_INT,
            -POS_LIMIT_INT <= y <= POS_LIMIT_INT,
            r is Some ==> r->0.wf(),
        ensures
            final(self).wf(),
            final(self).t == old(self).t,
            final(self).kicker_timer == old(self).kicker_timer,
            entity == EntityHandle::Ball ==> {
                &&& final(self).ball_x == x
                &&& final(self).ball_y == y
                &&& final(self).robots == old(self).robots
                &&& final(self).kickers == old(self).kickers
            },
            entity matches EntityHandle::Robot(id) ==> {
                    &&& final(self).ball_x == old(self).ball_x
                    &&& final(self).ball_y == old(self).ball_y
                    &&& final(self).kickers == old(self).kickers
                    &&& final(self).robots[id.index_spec()].x == x
                    &&& final(self).robots[id.index_spec()].y == y
                    &&& final(self).robots[id.index_spec()].angle == (if r is Some {
                        r->0
                    } else {
                        old(self).robots[id.index_spec()].angle
                    })
                    &&& forall|j: int|
                        0 <= j < 4 && j != id.index_spec() ==> #[trigger] final(self).robots[j]
                            == old(self).robots[j]
                },
            entity matches EntityHandle::Kicker(id) ==> {
                    &&& final(self).ball_x == old(self).ball_x
                    &&& final(self).ball_y == old(self).ball_y
                    &&& final(self).robots == old(self).robots
                    &&& final(self).kickers[id.index_spec()].x == x
                    &&& final(self).kickers[id.index_spec()].y == y
                    &&& forall|j: int|
                        0 <= j < 4 && j != id.index_spec() ==> #[trigger] final(self).kickers[j]
                            == old(self).kickers[j]
                },
    {
        match entity {
            EntityHandle::Ball => {
                self.ball_x = x;
                self.ball_y = y;
            },
            EntityHandle::Robot(id) => {
                let i = id.index();
                let angle = match r {
                    Some(a) => a,
                    None => self.robots[i].angle,
                };
                self.robots[i] = BodyState { x, y, angle };
            },
            EntityHandle::Kicker(id) => {
                let i = id.index();
                let angle = match r {
                    Some(a) => a,
                    None => self.kickers[i].angle,
                };
                self.kickers[i] = BodyState { x, y, angle };
            },
        }
    }

    /// Teleports the ball, keeping everything else in place.
    pub fn teleport_ball(&mut self, x: i64, y: i64)
        requires
            old(self).wf(),
            -POS_LIMIT_INT <= x <= POS_LIMIT_INT,
            -POS_LIMIT_INT <= y <= POS_LIMIT_INT,
        ensures
            final(self).wf(),
            final(self).ball_x == x,
            final(self).ball_y == y,
            final(self).robots == old(self).robots,
            final(self).kickers == old(self).kickers,
            final(self).kicker_timer == old(self).kicker_timer,
            final(self).t == old(self).t,
    {
        self.teleport_entity(EntityHandle::Ball, x, y, None);
    }

    /// Teleports one robot, keeping everything else in place.
    pub fn teleport_robot(&mut self, id: Robot, x: i64, y: i64, r: Option<AngleObs>)
        requires
            old(self).wf(),
            -POS_LIMIT_INT <= x <= POS_LIMIT_INT,
            -POS_LIMIT_INT <= y <= POS_LIMIT_INT,
            r is Some ==> r->0.wf(),
        ensures
            final(self).wf(),
            final(self).ball_x == old(self).ball_x,
            final(self).ball_y == old(self).ball_y,
            final(self).kickers == old(self).kickers,
            final(self).kicker_timer == old(self).kicker_timer,
            final(self).t == old(self).t,
            final(self).robots[id.index_spec()].x == x,
            final(self).robots[id.index_spec()].y == y,
            final(self).robots[id.index_spec()].angle == (if r is Some {
                r->0
            } else {
                old(self).robots[id.index_spec()].angle
            }),
            forall|j: int|
                0 <= j < 4 && j != id.index_spec() ==> #[trigger] final(self).robots[j] == old(
                    self,
                ).robots[j],
    {
        self.teleport_entity(EntityHandle::Robot(id), x, y, r);
    }

    /// Starts a kick of robot `id`: the kicker servo is driven outward for
    /// [`KICK_TICKS`] ticks. The strength `f` (in millionths of full power)
    /// is handed through to the solver by the caller; the mirror records the
    /// extension window.
    pub fn kick(&mut self, id: Robot, f: i64)
        requires
            old(self).wf(),
        ensures
            final(self).wf(),
            final(self).kicker_timer[id.index_spec()] == KICK_TICKS,
            forall|j: int|
                0 <= j < 4 && j != id.index_spec() ==> #[trigger] final(self).kicker_timer[j]
                    == old(self).kicker_timer[j],
            final(self).ball_x == old(self).ball_x,
            final(self).ball_y == old(self).ball_y,
            final(self).robots == old(self).robots,
            final(self).kickers == old(self).kickers,
            final(self).t == old(self).t,
    {
        let _ = f;
        let i = id.index();
        self.kicker_timer[i] = KICK_TICKS;
    }

    /// Teleports the ball and all robots back to the kickoff layout and
    /// retracts all kickers, without recreating any handle. The caller is
    /// expected to zero all solver velocities and forces as well.
    pub fn reset(&mut self)
        ensures
            final(self).wf(),
            final(self).at_kickoff(),
            forall|i: int| 0 <= i < 4 ==> #[trigger] final(self).kicker_timer[i] == 0,
            final(self).t == old(self).t,
    {
        let fresh = Simulation::new();
        self.ball_x = fresh.ball_x;
        self.ball_y = fresh.ball_y;
        self.robots = fresh.robots;
        self.kickers = fresh.kickers;
        self.kicker_timer = fresh.kicker_timer;
    }

    /// Which body, if any, contains the given point: the ball counts as a
    /// disc of its radius, robots and kickers as discs of the robot radius,
    /// tested in the order ball, robots, kickers, by slot. The disc
    /// over-approximates a robot's hexagon and a kicker's thin plate; the
    /// query serves interactive placement tooling only, never gameplay.
    pub open spec fn entity_at_spec(self, x: int, y: int) -> Option<EntityHandle> {
        if dist_sq_spec(x, y, self.ball_x as int, self.ball_y as int) <= (BALL_RADIUS_INT as int)
            * (BALL_RADIUS_INT as int) {
            Some(EntityHandle::Ball)
        } else if dist_sq_spec(x, y, self.robots[0].x as int, self.robots[0].y as int) <= (
        ROBOT_RADIUS_INT as int) * (ROBOT_RADIUS_INT as int) {
            Some(EntityHandle::Robot(Robot::Blue1))
        } else if dist_sq_spec(x, y, self.robots[1].x as int, self.robots[1].y as int) <= (
        ROBOT_RADIUS_INT as int) * (ROBOT_RADIUS_INT as int) {
            Some(EntityHandle::Robot(Robot::Blue2))
        } else if dist_sq_spec(x, y, self.robots[2].x as int, self.robots[2].y as int) <= (
        ROBOT_RADIUS_INT as int) * (ROBOT_RADIUS_INT as int) {
            Some(EntityHandle::Robot(Robot::Green1))
        } else if dist_sq_spec(x, y, self.robots[3].x as int, self.robots[3].y as int) <= (
        ROBOT_RADIUS_INT as int) * (ROBOT_RADIUS_INT as int) {
            Some(EntityHandle::Robot(Robot::Green2))
        } else if dist_sq_spec(x, y, self.kickers[0].x as int, self.kickers[0].y as int) <= (
        ROBOT_RADIUS_INT as int) * (ROBOT_RADIUS_INT as int) {
            Some(EntityHandle::Kicker(Robot::Blue1))
        } else if dist_sq_spec(x, y, self.kickers[1].x as int, self.kickers[1].y as int) <= (
        ROBOT_RADIUS_INT as int) * (ROBOT_RADIUS_INT as int) {
            Some(EntityHandle::Kicker(Robot::Blue2))
        } else if dist_sq_spec(x, y, self.kickers[2].x as int, self.kickers[2].y as int) <= (
        ROBOT_RADIUS_INT as int) * (ROBOT_RADIUS_INT as int) {
            Some(EntityHandle::Kicker(Robot::Green1))
        } else if dist_sq_spec(x, y, self.kickers[3].x as int, self.kickers[3].y as int) <= (
        ROBOT_RADIUS_INT as int) * (ROBOT_RADIUS_INT as int) {
            Some(EntityHandle::Kicker(Robot::Green2))
        } else {
            None
        }
    }

    /// Point-in-shape query on the mirror, used by interactive placement
    /// tooling: returns the handle of the body containing the point, if any.
    pub fn find_entity_at(&self, x: i64, y: i64) -> (h: Option<EntityHandle>)
        requires
            self.wf(),
            -POS_LIMIT_INT <= x <= POS_LIMIT_INT,
            -POS_LIMIT_INT <= y <= POS_LIMIT_INT,
        ensures
            h == self.entity_at_spec(x as int, y as int),
    {
        if dist_sq_i64(x, y, self.ball_x, self.ball_y) <= BALL_RADIUS_INT * BALL_RADIUS_INT {
            return Some(EntityHandle::Ball);
        }
        let mut i: usize = 0;
        let r2: i64 = ROBOT_RADIUS_INT * ROBOT_RADIUS_INT;
        if dist_sq_i64(x, y, self.robots[0].x, self.robots[0].y) <= r2 {
            return Some(EntityHandle::Robot(Robot::Blue1));
        }
        if dist_sq_i64(x, y, self.robots[1].x, self.robots[1].y) <= r2 {
            return Some(EntityHandle::Robot(Robot::Blue2));
        }
        if dist_sq_i64(x, y, self.robots[2].x, self.robots[2].y) <= r2 {
            return Some(EntityHandle::Robot(Robot::Green1));
        }
        if dist_sq_i64(x, y, self.robots[3].x, self.robots[3].y) <= r2 {
            return Some(EntityHandle::Robot(Robot::Green2));
        }
        if dist_sq_i64(x, y, self.kickers[0].x, self.kickers[0].y) <= r2 {
            return Some(EntityHandle::Kicker(Robot::Blue1));
        }
        if dist_sq_i64(x, y, self.kickers[1].x, self.kickers[1].y) <= r2 {
            return Some(EntityHandle::Kicker(Robot::Blue2));
        }
        if dist_sq_i64(x, y, self.kickers[2].x, self.kickers[2].y) <= r2 {
            return Some(EntityHandle::Kicker(Robot::Green1));
        }
        if dist_sq_i64(x, y, self.kickers[3].x, self.kickers[3].y) <= r2 {
            return Some(EntityHandle::Kicker(Robot::Green2));
        }
        None
    }
}

} // verus!
