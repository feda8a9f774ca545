//! Validation of client control requests.
//!
//! The network gateway parses each request into plain values and hands them
//! here; this module decides the outcome — key check, robot lookup,
//! preemption, command shape — and applies accepted commands to the task
//! store. Building the wire reply from a [`CtrlRes`] is the gateway's job.
use vstd::prelude::*;

use crate::constants::{CMD_LIMIT, KICK_MAX};
use crate::game_controller::GC;
use crate::game_state::{CommandTarget, Robot};
use crate::maths::{clamp_i64, clamp_spec};

verus! {

/// The outcome of one control request, as reported back to the client.
#[derive(Debug)]
pub enum CtrlRes {
    UnknownError,
    /// The key did not match the named team's key.
    BadKey(String),
    /// The robot is penalized and engine-controlled: team, robot number,
    /// preemption reason.
    Preempted(String, u8, String),
    /// No robot of that team has that number.
    UnknownRobot(String, u8),
    UnknownCommand,
    /// The command was accepted and stored.
    Accepted,
}

/// One argument of a parsed control request: a string, a number already
/// scaled to interface units, or something of any other shape.
#[derive(Clone, Debug)]
pub enum ReqArg {
    Str(String),
    Num(i64),
    Other,
}

/// The numeric value of one request argument; anything that is not a
/// number counts as zero.
pub open spec fn arg_num_spec(a: ReqArg) -> int {
    match a {
        ReqArg::Num(v) => v as int,
        _ => 0,
    }
}

/// Returns the numeric value of one request argument.
fn arg_num(a: &ReqArg) -> (v: i64)
    ensures
        v == arg_num_spec(*a),
{
    match a {
        ReqArg::Num(v) => *v,
        _ => 0,
    }
}

/// The request names a well-shaped `control` command: four arguments led
/// by the word itself.
pub open spec fn is_control_cmd(cmd: Seq<ReqArg>) -> bool {
    &&& cmd.len() == 4
    &&& cmd[0] matches ReqArg::Str(s) && s@ == "control"@
}

/// The request names a well-shaped `kick` command: two arguments led by
/// the word itself.
pub open spec fn is_kick_cmd(cmd: Seq<ReqArg>) -> bool {
    &&& cmd.len() == 2
    &&& cmd[0] matches ReqArg::Str(s) && s@ == "kick"@
}

/// The robot addressed by a team name and a robot number, if any.
pub open spec fn robot_of_spec(green: bool, number: u8) -> Option<Robot> {
    if !green && number == 1 {
        Some(Robot::Blue1)
    } else if !green && number == 2 {
        Some(Robot::Blue2)
    } else if green && number == 1 {
        Some(Robot::Green1)
    } else if green && number == 2 {
        Some(Robot::Green2)
    } else {
        None
    }
}

/// Returns whether `s` reads exactly `lit`.
fn str_is(s: &String, lit: &str) -> (r: bool)
    ensures
        r == (s@ == lit@),
{
    let owned: String = lit.to_owned();
    *s == owned
}

/// Decides one control request and applies its effect.
///
/// The decision follows the wire protocol: an unknown team is an unknown
/// error; a wrong key is refused; an unknown robot number is refused; a
/// penalized robot is reported preempted, whatever the caller submits; a
/// well-shaped `control` command stores the robot's new velocity target
/// (each component saturated at the ingress bound); a well-shaped `kick`
/// command stores a one-shot kick request; anything else is an unknown
/// command.
pub fn process_control_request(
    gc: &mut GC,
    key: String,
    team: String,
    number: u8,
    cmd: Vec<ReqArg>,
) -> (res: CtrlRes)
    requires
        old(gc).wf(),
    ensures
        final(gc).wf(),
        ({
            let blue = team@ == "blue"@;
            let green = team@ == "green"@;
            if !blue && !green {
                &&& res is UnknownError
                &&& *final(gc) == *old(gc)
            } else {
                let k: int = if green {
                    1
                } else {
                    0
                };
                if key@ != old(gc).referee.teams[k].key@ {
                    &&& res matches CtrlRes::BadKey(tm) && tm@ == team@
                    &&& *final(gc) == *old(gc)
                } else {
                    match robot_of_spec(green, number) {
                        None => {
                            &&& res matches CtrlRes::UnknownRobot(tm, n) && tm@ == team@ && n
                                == number
                            &&& *final(gc) == *old(gc)
                        },
                        Some(rid) => {
                            let i = rid.index_spec();
                            match old(gc).referee.tasks.tasks[i].penalty {
                                Some(p) => {
                                    &&& res matches CtrlRes::Preempted(tm, n, reason) && tm@
                                        == team@ && n == number && reason@ == p.reason@
                                    &&& *final(gc) == *old(gc)
                                },
                                None => {
                                    if is_control_cmd(cmd@) {
                                        &&& res is Accepted
                                        &&& final(gc).referee.tasks.tasks[i].control == (
                                        CommandTarget {
                                            x: clamp_spec(
                                                arg_num_spec(cmd[1]),
                                                -CMD_LIMIT as int,
                                                CMD_LIMIT as int,
                                            ) as i64,
                                            y: clamp_spec(
                                                arg_num_spec(cmd[2]),
                                                -CMD_LIMIT as int,
                                                CMD_LIMIT as int,
                                            ) as i64,
                                            r: clamp_spec(
                                                arg_num_spec(cmd[3]),
                                                -CMD_LIMIT as int,
                                                CMD_LIMIT as int,
                                            ) as i64,
                                        })
                                        &&& final(gc).referee.tasks.tasks[i].kick == old(gc).referee.tasks.tasks[i].kick
                                        &&& final(gc).referee.tasks.tasks[i].penalty is None
                                        &&& forall|j: int|
                                            0 <= j < 4 && j != i ==> #[trigger] final(gc).referee.tasks.tasks[j] == old(gc).referee.tasks.tasks[j]
                                        &&& final(gc).simu == old(gc).simu
                                        &&& final(gc).referee.teams == old(gc).referee.teams
                                        &&& final(gc).referee.state == old(gc).referee.state
                                        &&& final(gc).referee.with_ball == old(gc).referee.with_ball
                                    } else if is_kick_cmd(cmd@) {
                                        &&& res is Accepted
                                        &&& final(gc).referee.tasks.tasks[i].kick == Some(
                                            clamp_spec(
                                                arg_num_spec(cmd[1]),
                                                0,
                                                KICK_MAX as int,
                                            ) as i64,
                                        )
                                        &&& final(gc).referee.tasks.tasks[i].control == old(gc).referee.tasks.tasks[i].control
                                        &&& final(gc).referee.tasks.tasks[i].penalty is None
                                        &&& forall|j: int|
                                            0 <= j < 4 && j != i ==> #[trigger] final(gc).referee.tasks.tasks[j] == old(gc).referee.tasks.tasks[j]
                                        &&& final(gc).simu == old(gc).simu
                                        &&& final(gc).referee.teams == old(gc).referee.teams
                                        &&& final(gc).referee.state == old(gc).referee.state
                                        &&& final(gc).referee.with_ball == old(gc).referee.with_ball
                                    } else {
                                        &&& res is UnknownCommand
                                        &&& *final(gc) == *old(gc)
                                    }
                                },
                            }
                        },
                    }
                }
            }
        }),
{
    let blue = str_is(&team, "blue");
    let green = str_is(&team, "green");
    if !blue && !green {
        return CtrlRes::UnknownError;
    }
    let k: usize = if green {
        1
    } else {
        0
    };
    if !(gc.referee.teams[k].key == key) {
        return CtrlRes::BadKey(team);
    }
    let rid_opt: Option<Robot> = if !green && number == 1 {
        Some(Robot::Blue1)
    } else if !green && number == 2 {
        Some(Robot::Blue2)
    } else if green && number == 1 {
        Some(Robot::Green1)
    } else if green && number == 2 {
        Some(Robot::Green2)
    } else {
        None
    };
    let rid = match rid_opt {
        Some(r) => r,
        None => {
            return CtrlRes::UnknownRobot(team, number);
        },
    };
    let i = rid.index();
    let reason_opt: Option<String> = match &gc.referee.tasks.tasks[i].penalty {
        Some(p) => Some(p.reason.clone()),
        None => None,
    };
    if let Some(reason) = reason_opt {
        return CtrlRes::Preempted(team, number, reason);
    }
    let shape_control = cmd.len() == 4 && (match &cmd[0] {
        ReqArg::Str(s) => str_is(s, "control"),
        _ => false,
    });
    let shape_kick = cmd.len() == 2 && (match &cmd[0] {
        ReqArg::Str(s) => str_is(s, "kick"),
        _ => false,
    });
    if shape_control {
        let x = clamp_i64(arg_num(&cmd[1]), -CMD_LIMIT, CMD_LIMIT);
        let y = clamp_i64(arg_num(&cmd[2]), -CMD_LIMIT, CMD_LIMIT);
        let r = clamp_i64(arg_num(&cmd[3]), -CMD_LIMIT, CMD_LIMIT);
        let accepted = gc.set_command(rid, x, y, r);
        proof {
            assert(accepted);
        }
        CtrlRes::Accepted
    } else if shape_kick {
        let f = arg_num(&cmd[1]);
        let accepted = gc.set_kick(rid, f);
        proof {
            assert(accepted);
        }
        CtrlRes::Accepted
    } else {
        CtrlRes::UnknownCommand
    }
}

} // verus!
