//! Data model of the match: robot identifiers, poses, the per-robot task
//! store and the snapshot types handed to clients.
//!
//! Every position in this module is in interface units: micrometers for
//! coordinates, microradians for orientations, with the origin at the center
//! of the field.
use vstd::prelude::*;

verus! {

/// The closed set of the four robots. The slot order is Blue1, Blue2,
/// Green1, Green2; `index` gives the slot used for all per-robot arrays.
#[derive(Clone, Copy, PartialEq, Eq, Structural, Debug)]
pub enum Robot {
    Blue1,
    Blue2,
    Green1,
    Green2,
}

impl Robot {
    /// Slot of this robot in every per-robot array.
    pub open spec fn index_spec(self) -> int {
        match self {
            Robot::Blue1 => 0,
            Robot::Blue2 => 1,
            Robot::Green1 => 2,
            Robot::Green2 => 3,
        }
    }

    /// Returns the slot of this robot in every per-robot array.
    pub fn index(self) -> (i: usize)
        ensures
            i == self.index_spec(),
            i < 4,
    {
        match self {
            Robot::Blue1 => 0,
            Robot::Blue2 => 1,
            Robot::Green1 => 2,
            Robot::Green2 => 3,
        }
    }

    /// The robot occupying a given slot.
    pub open spec fn from_index_spec(i: int) -> Robot {
        if i == 0 {
            Robot::Blue1
        } else if i == 1 {
            Robot::Blue2
        } else if i == 2 {
            Robot::Green1
        } else {
            Robot::Green2
        }
    }

    /// Returns the robot occupying slot `i`.
    pub fn from_index(i: usize) -> (r: Robot)
        requires
            i < 4,
        ensures
            r == Robot::from_index_spec(i as int),
            r.index_spec() == i,
    {
        if i == 0 {
            Robot::Blue1
        } else if i == 1 {
            Robot::Blue2
        } else if i == 2 {
            Robot::Green1
        } else {
            Robot::Green2
        }
    }

    /// Returns all four robots in slot order.
    pub fn all() -> (r: [Robot; 4])
        ensures
            forall|i: int| 0 <= i < 4 ==> #[trigger] r[i] == Robot::from_index_spec(i),
    {
        [Robot::Blue1, Robot::Blue2, Robot::Green1, Robot::Green2]
    }
}

/// A 2D pose: position in micrometers, orientation in microradians.
#[derive(Clone, Copy, PartialEq, Eq, Structural, Debug)]
pub struct Pose {
    pub x: i64,
    pub y: i64,
    pub orientation: i64,
}

/// The per-tick velocity target of one robot, in the robot-local frame:
/// linear parts in micrometers per second, rotation in microradians per
/// second. Overwritten on each external write, cleared to zero when a
/// penalty starts or expires.
#[derive(Clone, Copy, PartialEq, Eq, Structural, Debug)]
pub struct CommandTarget {
    pub x: i64,
    pub y: i64,
    pub r: i64,
}

impl CommandTarget {
    /// The zero command.
    pub open spec fn zero_spec() -> CommandTarget {
        CommandTarget { x: 0, y: 0, r: 0 }
    }

    /// Returns the zero command.
    pub fn zero() -> (c: CommandTarget)
        ensures
            c == CommandTarget::zero_spec(),
    {
        CommandTarget { x: 0, y: 0, r: 0 }
    }
}

/// An active penalty: its reason, the absolute tick at which it expires and
/// the penalty spot it claims.
#[derive(Clone, Debug)]
pub struct Penalty {
    pub reason: String,
    pub end: u64,
    pub spot: usize,
}

impl Penalty {
    /// Returns a copy of this penalty.
    pub fn clone_penalty(&self) -> (p: Penalty)
        ensures
            p == *self,
    {
        Penalty { reason: self.reason.clone(), end: self.end, spot: self.spot }
    }
}

/// The pending work of one robot: its command target, an optional one-shot
/// kick request (strength in millionths, consumed exactly once) and its
/// penalty state, if any.
#[derive(Clone, Debug)]
pub struct RobotTasks {
    pub control: CommandTarget,
    pub kick: Option<i64>,
    pub penalty: Option<Penalty>,
}

impl RobotTasks {
    /// An idle task entry: zero command, no kick, no penalty.
    pub open spec fn idle_spec() -> RobotTasks {
        RobotTasks { control: CommandTarget::zero_spec(), kick: None, penalty: None }
    }

    /// Returns an idle task entry.
    pub fn idle() -> (t: RobotTasks)
        ensures
            t == RobotTasks::idle_spec(),
    {
        RobotTasks { control: CommandTarget::zero(), kick: None, penalty: None }
    }
}

/// The poses of the four robots, by marker name.
#[derive(Clone, PartialEq, Eq, Structural, Debug)]
pub struct Markers {
    pub blue1: Pose,
    pub blue2: Pose,
    pub green1: Pose,
    pub green2: Pose,
}

/// Penalty and preemption status of one robot, as shown to clients.
/// `penalized_remaining` is in seconds.
#[derive(Clone, Debug)]
pub struct RefereeTeamRobot {
    pub penalized: bool,
    pub penalized_remaining: Option<u64>,
    pub penalized_reason: Option<String>,
    pub preempted: bool,
    pub preemption_reasons: Vec<String>,
}

/// Status of both robots of one team.
#[derive(Clone, Debug)]
pub struct RefereeTeamRobots {
    pub one: RefereeTeamRobot,
    pub two: RefereeTeamRobot,
}

/// One team as shown to clients: name, score, side and robot statuses.
#[derive(Clone, Debug)]
pub struct RefereeTeam {
    pub name: String,
    pub score: u64,
    pub x_positive: bool,
    pub robots: RefereeTeamRobots,
}

/// Both teams as shown to clients.
#[derive(Clone, Debug)]
pub struct RefereeTeams {
    pub green: RefereeTeam,
    pub blue: RefereeTeam,
}

/// The referee block of a snapshot: match flags, the timer in seconds, a
/// human-readable state message and both teams.
#[derive(Clone, Debug)]
pub struct Referee {
    pub game_is_running: bool,
    pub game_paused: bool,
    pub halftime_is_running: bool,
    pub timer: u64,
    pub game_state_msg: String,
    pub teams: RefereeTeams,
}

/// A read-only projection of the whole game, assembled on demand. All
/// positions are in interface units.
#[derive(Clone, Debug)]
pub struct GameState {
    pub ball: Option<(i64, i64)>,
    pub markers: Markers,
    pub referee: Referee,
}

impl Default for Markers {
    /// Returns the kickoff poses of all four robots.
    fn default() -> (m: Markers)
        ensures
            m.blue1 == (Pose { x: (-915_000) as i64, y: 0, orientation: 0 }),
            m.blue2 == (Pose { x: (-457_500) as i64, y: 0, orientation: 0 }),
            m.green1 == (Pose { x: 457_500, y: 0, orientation: 3_141_593 }),
            m.green2 == (Pose { x: 915_000, y: 0, orientation: 3_141_593 }),
    {
        Markers {
            blue1: Pose { x: -915_000, y: 0, orientation: 0 },
            blue2: Pose { x: -457_500, y: 0, orientation: 0 },
            green1: Pose { x: 457_500, y: 0, orientation: 3_141_593 },
            green2: Pose { x: 915_000, y: 0, orientation: 3_141_593 },
        }
    }
}

impl Default for RefereeTeamRobot {
    /// Returns the status of a robot that is neither penalized nor
    /// preempted.
    fn default() -> (r: RefereeTeamRobot)
        ensures
            !r.penalized,
            r.penalized_remaining is None,
            r.penalized_reason is None,
            !r.preempted,
            r.preemption_reasons@.len() == 0,
    {
        RefereeTeamRobot {
            penalized: false,
            penalized_remaining: None,
            penalized_reason: None,
            preempted: false,
            preemption_reasons: Vec::new(),
        }
    }
}

impl Default for RefereeTeamRobots {
    /// Returns idle statuses for both robots.
    fn default() -> (r: RefereeTeamRobots)
        ensures
            !r.one.penalized && !r.two.penalized,
            r.one.preemption_reasons@.len() == 0 && r.two.preemption_reasons@.len() == 0,
    {
        RefereeTeamRobots { one: RefereeTeamRobot::default(), two: RefereeTeamRobot::default() }
    }
}

impl Default for RefereeTeam {
    /// Returns a nameless team with no score on the positive side.
    fn default() -> (t: RefereeTeam)
        ensures
            t.name@.len() == 0,
            t.score == 0,
            t.x_positive,
    {
        RefereeTeam {
            name: String::new(),
            score: 0,
            x_positive: true,
            robots: RefereeTeamRobots::default(),
        }
    }
}

impl Default for RefereeTeams {
    /// Returns two default teams.
    fn default() -> (t: RefereeTeams)
        ensures
            t.green.score == 0,
            t.blue.score == 0,
    {
        RefereeTeams { green: RefereeTeam::default(), blue: RefereeTeam::default() }
    }
}

impl Default for Referee {
    /// Returns the referee block of a match that is ready to start.
    fn default() -> (r: Referee)
        ensures
            !r.game_is_running,
            !r.game_paused,
            !r.halftime_is_running,
            r.timer == 0,
            r.game_state_msg@ == "Game is ready to start"@,
    {
        Referee {
            game_is_running: false,
            game_paused: false,
            halftime_is_running: false,
            timer: 0,
            game_state_msg: "Game is ready to start".to_owned(),
            teams: RefereeTeams::default(),
        }
    }
}

impl Default for GameState {
    /// Returns a snapshot of a match that is ready to start: ball at the
    /// center, robots at kickoff, no score.
    fn default() -> (gs: GameState)
        ensures
            gs.ball == Some((0i64, 0i64)),
            gs.referee.timer == 0,
            !gs.referee.game_is_running,
    {
        GameState {
            ball: Some((0, 0)),
            markers: Markers::default(),
            referee: Referee::default(),
        }
    }
}

} // verus!
