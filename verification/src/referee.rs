//! Referee state: match clock and phase, team records, the task store and
//! the projection of all of it into the referee block of a snapshot.
use vstd::prelude::*;

use crate::constants::{CMD_LIMIT, FRAME_DURATION_MS, KICK_MAX, MATCH_DURATION_SECS, NUM_PENALTY_SPOTS};
use crate::game_state::{
    Referee as RefereeBlock, RefereeTeam, RefereeTeamRobot, RefereeTeamRobots, RefereeTeams,
    RobotTasks,
};

verus! {

/// One team: its name, the key its clients authenticate with (checked by the
/// control collaborator, carried here for bookkeeping) and its score.
#[derive(Clone, Debug)]
pub struct TeamInfo {
    pub name: String,
    pub key: String,
    pub score: u64,
}

/// The phase of the match. `Running` carries the tick at which play started,
/// `Paused` the remaining time in ticks.
#[derive(Clone, Copy, PartialEq, Eq, Structural, Debug)]
pub enum MatchState {
    NotStarted,
    Running(u64),
    Paused(u64),
    Halftime,
}

/// The shared array of per-robot pending commands, kick requests and penalty
/// state: written by the command ingress, drained once per tick by the game
/// controller. Callers that share it across threads wrap the whole
/// controller in one coarse lock.
#[derive(Clone, Debug)]
pub struct TaskStore {
    pub tasks: [RobotTasks; 4],
}

impl TaskStore {
    /// Every penalty claims an existing spot, every stored command
    /// component is within the ingress bound, and every pending kick
    /// strength is within the request range.
    pub open spec fn wf(self) -> bool {
        &&& forall|i: int|
            0 <= i < 4 ==> ((#[trigger] self.tasks[i].penalty) matches Some(p) ==> p.spot
                < NUM_PENALTY_SPOTS)
        &&& forall|i: int|
            0 <= i < 4 ==> {
                let c = (#[trigger] self.tasks[i]).control;
                &&& -CMD_LIMIT <= c.x <= CMD_LIMIT
                &&& -CMD_LIMIT <= c.y <= CMD_LIMIT
                &&& -CMD_LIMIT <= c.r <= CMD_LIMIT
            }
        &&& forall|i: int|
            0 <= i < 4 ==> ((#[trigger] self.tasks[i].kick) matches Some(f) ==> 0 <= f
                <= KICK_MAX)
    }

    /// Returns a store with all four robots idle.
    pub fn new() -> (s: TaskStore)
        ensures
            s.wf(),
            forall|i: int| 0 <= i < 4 ==> #[trigger] s.tasks[i] == RobotTasks::idle_spec(),
    {
        TaskStore {
            tasks: [RobotTasks::idle(), RobotTasks::idle(), RobotTasks::idle(), RobotTasks::idle()],
        }
    }
}

/// No two active penalties claim the same spot, except for the documented
/// fallback spot zero, which overflow assignments may share.
pub open spec fn spots_exclusive(ts: TaskStore) -> bool {
    forall|i: int, j: int|
        0 <= i < 4 && 0 <= j < 4 && i != j && (#[trigger] ts.tasks[i].penalty) is Some && (
        #[trigger] ts.tasks[j].penalty) is Some ==> !(ts.tasks[i].penalty->0.spot
            == ts.tasks[j].penalty->0.spot && ts.tasks[i].penalty->0.spot != 0)
}

/// No two active penalties claim the same spot at all.
pub open spec fn spots_distinct(ts: TaskStore) -> bool {
    forall|i: int, j: int|
        0 <= i < 4 && 0 <= j < 4 && i != j && (#[trigger] ts.tasks[i].penalty) is Some && (
        #[trigger] ts.tasks[j].penalty) is Some ==> ts.tasks[i].penalty->0.spot
            != ts.tasks[j].penalty->0.spot
}

/// Pairwise distinct spots are in particular exclusive: distinctness is
/// the fallback-free form of the spot invariant.
pub proof fn lemma_distinct_implies_exclusive(ts: TaskStore)
    requires
        spots_distinct(ts),
    ensures
        spots_exclusive(ts),
{
}

/// Seconds left on a penalty that expires at tick `end`, seen at tick `t`.
pub open spec fn remaining_secs_spec(end: u64, t: u64) -> int {
    if end >= t {
        (end - t) * FRAME_DURATION_MS / 1000
    } else {
        0
    }
}

/// Returns the seconds left until tick `end`, seen from tick `t`.
pub fn remaining_secs(end: u64, t: u64) -> (r: u64)
    ensures
        r == remaining_secs_spec(end, t),
{
    if end >= t {
        let d: u128 = (end - t) as u128;
        let s: u128 = d * (FRAME_DURATION_MS as u128) / 1000;
        proof {
            assert(d * FRAME_DURATION_MS / 1000 <= d) by (nonlinear_arith)
                requires
                    d >= 0,
            ;
        }
        s as u64
    } else {
        0
    }
}

/// The snapshot block of one robot agrees with its task entry at tick `t`:
/// penalized and preempted exactly when a penalty is active, with its reason
/// and its remaining seconds.
pub open spec fn robot_block_matches(block: RefereeTeamRobot, task: RobotTasks, t: u64) -> bool {
    match task.penalty {
        Some(p) => {
            &&& block.penalized
            &&& block.preempted
            &&& block.penalized_remaining == Some(remaining_secs_spec(p.end, t) as u64)
            &&& block.penalized_reason matches Some(s) && s@ == p.reason@
            &&& block.preemption_reasons@.len() == 1
            &&& block.preemption_reasons@[0]@ == p.reason@
        },
        None => {
            &&& !block.penalized
            &&& !block.preempted
            &&& block.penalized_remaining is None
            &&& block.penalized_reason is None
            &&& block.preemption_reasons@.len() == 0
        },
    }
}

/// The referee engine: team records, the match phase, the task store and,
/// for each robot, the last tick at which it was away from the ball.
#[derive(Clone, Debug)]
pub struct Referee {
    /// Blue first, green second.
    pub teams: [TeamInfo; 2],
    pub blue_team_positive: bool,
    pub state: MatchState,
    pub tasks: TaskStore,
    pub with_ball: [u64; 4],
}

impl Referee {
    /// Consistency at tick `t`: the task store is well formed, no "away"
    /// mark lies in the future, and play cannot have started in the future.
    pub open spec fn wf(self, t: u64) -> bool {
        &&& self.tasks.wf()
        &&& forall|i: int| 0 <= i < 4 ==> #[trigger] self.with_ball[i] <= t
        &&& (self.state matches MatchState::Running(start) ==> start <= t)
    }

    /// Builds a referee with both teams at score zero, all robots idle and
    /// play running from tick zero: there is no separate start operation,
    /// so a fresh session is immediately live, and the pause and halftime
    /// phases are reachable only by writing the state directly.
    pub fn new(
        blue_team_name: String,
        green_team_name: String,
        blue_team_key: String,
        green_team_key: String,
        blue_team_positive: bool,
    ) -> (r: Referee)
        ensures
            r.wf(0),
            forall|t: u64| r.wf(t),
            r.teams[0].name == blue_team_name,
            r.teams[1].name == green_team_name,
            r.teams[0].key == blue_team_key,
            r.teams[1].key == green_team_key,
            r.teams[0].score == 0,
            r.teams[1].score == 0,
            r.blue_team_positive == blue_team_positive,
            r.state == MatchState::Running(0u64),
            forall|i: int| 0 <= i < 4 ==> #[trigger] r.tasks.tasks[i] == RobotTasks::idle_spec(),
            forall|i: int| 0 <= i < 4 ==> #[trigger] r.with_ball[i] == 0,
    {
        Referee {
            teams: [
                TeamInfo { name: blue_team_name, key: blue_team_key, score: 0 },
                TeamInfo { name: green_team_name, key: green_team_key, score: 0 },
            ],
            blue_team_positive,
            state: MatchState::Running(0),
            tasks: TaskStore::new(),
            with_ball: [0, 0, 0, 0],
        }
    }

    /// The timer shown to clients at tick `t`, in seconds: time played while
    /// running, the stored remainder while paused, half the match at
    /// halftime.
    pub open spec fn timer_spec(self, t: u64) -> int {
        match self.state {
            MatchState::NotStarted => 0,
            MatchState::Running(start) => (t - start) * FRAME_DURATION_MS / 1000,
            MatchState::Paused(rem) => rem * FRAME_DURATION_MS / 1000,
            MatchState::Halftime => MATCH_DURATION_SECS as int / 2,
        }
    }

    /// Assembles the referee block of a snapshot at tick `t`: both teams
    /// with their scores and sides, each robot's penalty and preemption
    /// status, the match flags and the timer.
    pub fn get_gs_referee(&self, t: u64) -> (r: RefereeBlock)
        requires
            self.wf(t),
        ensures
            r.teams.blue.name == self.teams[0].name,
            r.teams.green.name == self.teams[1].name,
            r.teams.blue.score == self.teams[0].score,
            r.teams.green.score == self.teams[1].score,
            r.teams.blue.x_positive == self.blue_team_positive,
            r.teams.green.x_positive == !self.blue_team_positive,
            robot_block_matches(r.teams.blue.robots.one, self.tasks.tasks[0], t),
            robot_block_matches(r.teams.blue.robots.two, self.tasks.tasks[1], t),
            robot_block_matches(r.teams.green.robots.one, self.tasks.tasks[2], t),
            robot_block_matches(r.teams.green.robots.two, self.tasks.tasks[3], t),
            r.game_is_running == (self.state matches MatchState::Running(_)),
            r.game_paused == (self.state matches MatchState::Paused(_)),
            r.halftime_is_running == (self.state == MatchState::Halftime),
            r.timer == self.timer_spec(t),
            (self.state == MatchState::NotStarted) ==> r.game_state_msg@
                == "Game is ready to start"@,
            !(self.state == MatchState::NotStarted) ==> r.game_state_msg@.len() == 0,
    {
        proof {
            reveal_strlit("");
        }
        let b1 = Self::robot_block(&self.tasks.tasks[0], t);
        let b2 = Self::robot_block(&self.tasks.tasks[1], t);
        let g1 = Self::robot_block(&self.tasks.tasks[2], t);
        let g2 = Self::robot_block(&self.tasks.tasks[3], t);
        let timer: u64 = match self.state {
            MatchState::NotStarted => 0,
            MatchState::Running(start) => remaining_secs(t, start),
            MatchState::Paused(rem) => remaining_secs(rem, 0),
            MatchState::Halftime => MATCH_DURATION_SECS / 2,
        };
        RefereeBlock {
            game_is_running: match self.state {
                MatchState::Running(_) => true,
                _ => false,
            },
            game_paused: match self.state {
                MatchState::Paused(_) => true,
                _ => false,
            },
            halftime_is_running: self.state == MatchState::Halftime,
            timer,
            game_state_msg: match self.state {
                MatchState::NotStarted => "Game is ready to start".to_owned(),
                _ => "".to_owned(),
            },
            teams: RefereeTeams {
                blue: RefereeTeam {
                    name: self.teams[0].name.clone(),
                    x_positive: self.blue_team_positive,
                    score: self.teams[0].score,
                    robots: RefereeTeamRobots { one: b1, two: b2 },
                },
                green: RefereeTeam {
                    name: self.teams[1].name.clone(),
                    x_positive: !self.blue_team_positive,
                    score: self.teams[1].score,
                    robots: RefereeTeamRobots { one: g1, two: g2 },
                },
            },
        }
    }

    /// Builds the status block of one robot from its task entry at tick `t`.
    fn robot_block(task: &RobotTasks, t: u64) -> (block: RefereeTeamRobot)
        ensures
            robot_block_matches(block, *task, t),
    {
        match &task.penalty {
            Some(p) => {
                let reason = p.reason.clone();
                let mut reasons: Vec<String> = Vec::new();
                reasons.push(p.reason.clone());
                RefereeTeamRobot {
                    penalized: true,
                    penalized_remaining: Some(remaining_secs(p.end, t)),
                    penalized_reason: Some(reason),
                    preempted: true,
                    preemption_reasons: reasons,
                }
            },
            None => RefereeTeamRobot {
                penalized: false,
                penalized_remaining: None,
                penalized_reason: None,
                preempted: false,
                preemption_reasons: Vec::new(),
            },
        }
    }
}

} // verus!
