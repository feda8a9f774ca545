use rsk_simulation::constants::{
    BALL_ABUSE_TIME, FRAME_DURATION_MS, MAX_SPEED, PENALTY_DURATION, UNIT_SCALE,
};
use rsk_simulation::game_controller::GC;
use rsk_simulation::game_state::Robot;
use rsk_simulation::simulation::{AngleObs, BodyState, EntityHandle, Observation};
use rsk_simulation::steering::steering_command;

fn fresh_gc() -> GC {
    GC::new(
        "blue team".to_string(),
        "green team".to_string(),
        "blue key".to_string(),
        "green key".to_string(),
        true,
    )
}

/// Reads the current mirror back as an observation, as a solver that moved
/// nothing would report it.
fn observe_current(gc: &GC) -> Observation {
    Observation {
        ball_x: gc.simu.ball_x,
        ball_y: gc.simu.ball_y,
        robots: gc.simu.robots,
        kickers: gc.simu.kickers,
    }
}

/// One tick in which the solver reports exactly the previous poses.
fn tick_static(gc: &mut GC) {
    let obs = observe_current(gc);
    gc.step_observe(&obs);
}

#[test]
fn unit_round_trip_ball() {
    let mut gc = fresh_gc();
    gc.teleport_ball(123_456, -654_321);
    let gs = gc.get_game_state();
    assert_eq!(gs.ball, Some((123_456, -654_321)));
    gc.teleport_ball(-1, 1);
    let gs = gc.get_game_state();
    assert_eq!(gs.ball, Some((-1, 1)));
}

#[test]
fn unit_round_trip_robot() {
    let mut gc = fresh_gc();
    gc.teleport_robot(Robot::Green1, 250_000, -111_111, None);
    let gs = gc.get_game_state();
    assert_eq!(gs.markers.green1.x, 250_000);
    assert_eq!(gs.markers.green1.y, -111_111);
}

#[test]
fn kickoff_snapshot() {
    let gc = fresh_gc();
    let gs = gc.get_game_state();
    assert_eq!(gs.ball, Some((0, 0)));
    assert_eq!(gs.markers.blue1.x, -915_000);
    assert_eq!(gs.markers.blue2.x, -457_500);
    assert_eq!(gs.markers.green1.x, 457_500);
    assert_eq!(gs.markers.green2.x, 915_000);
    assert_eq!(gs.markers.green2.orientation, 3_141_593);
    assert!(gs.referee.game_is_running);
    assert!(!gs.referee.game_paused);
    assert_eq!(gs.referee.timer, 0);
    assert_eq!(gs.referee.teams.blue.name, "blue team");
    assert_eq!(gs.referee.teams.green.name, "green team");
    assert!(gs.referee.teams.blue.x_positive);
    assert!(!gs.referee.teams.green.x_positive);
    assert_eq!(gs.referee.teams.blue.score, 0);
    assert!(!gs.referee.teams.blue.robots.one.penalized);
    assert_eq!(gs.referee.teams.blue.robots.one.penalized_remaining, None);
}

#[test]
fn non_stacking_penalty() {
    // P2: a second penalize before expiry replaces the reason and extends
    // the expiry by exactly one duration; there is still one penalty.
    let mut gc = fresh_gc();
    gc.penalize(Robot::Blue2, "reason a");
    let p0 = gc.referee.tasks.tasks[1].penalty.clone().unwrap();
    assert_eq!(p0.reason, "reason a");
    assert_eq!(p0.end, PENALTY_DURATION);
    let spot0 = p0.spot;
    gc.penalize(Robot::Blue2, "reason b");
    let p1 = gc.referee.tasks.tasks[1].penalty.clone().unwrap();
    assert_eq!(p1.reason, "reason b");
    assert_eq!(p1.end, p0.end + PENALTY_DURATION);
    assert_eq!(p1.spot, spot0);
}

#[test]
fn spot_exclusivity() {
    // P3: penalizing all four robots at kickoff yields four distinct spots.
    let mut gc = fresh_gc();
    gc.penalize(Robot::Blue1, "a");
    gc.penalize(Robot::Blue2, "b");
    gc.penalize(Robot::Green1, "c");
    gc.penalize(Robot::Green2, "d");
    let spots: Vec<usize> = (0..4)
        .map(|i| gc.referee.tasks.tasks[i].penalty.clone().unwrap().spot)
        .collect();
    // Each robot gets the eligible spot farthest from it, earlier spots
    // winning ties, so all four spots are distinct.
    assert_eq!(spots, vec![2, 5, 0, 3]);
}

#[test]
fn penalty_spot_fallback() {
    // Scenario: when every spot is already taken — three by standing
    // robots, three by their penalties — the call must not fail and
    // assigns the documented fallback spot 0, even though it is occupied.
    let mut gc = fresh_gc();
    // Spot positions in interface units: 0..2 on top, 3..5 at the bottom.
    gc.teleport_robot(Robot::Blue1, -457_500, -765_000, None); // on spot 3
    gc.teleport_robot(Robot::Blue2, 0, -765_000, None); // on spot 4
    gc.teleport_robot(Robot::Green1, 457_500, -765_000, None); // on spot 5
    gc.penalize(Robot::Blue1, "a");
    gc.penalize(Robot::Blue2, "b");
    gc.penalize(Robot::Green1, "c");
    let claimed: Vec<usize> = (0..3)
        .map(|i| gc.referee.tasks.tasks[i].penalty.clone().unwrap().spot)
        .collect();
    // The three penalties claim the three top spots (farthest from the
    // bottom line), so together with the standing robots every spot is
    // blocked for Green2.
    let mut sorted = claimed.clone();
    sorted.sort();
    assert_eq!(sorted, vec![0, 1, 2]);
    gc.penalize(Robot::Green2, "test");
    let p = gc.referee.tasks.tasks[3].penalty.clone().unwrap();
    assert_eq!(p.spot, 0);
    assert_eq!(p.reason, "test");
}

#[test]
fn command_preemption() {
    // P4: while penalized, external writes are refused and never change
    // the stored command, so the next tick's actuation is unaffected.
    let mut gc = fresh_gc();
    gc.penalize(Robot::Blue1, "held");
    tick_static(&mut gc); // installs the steering command
    let steer = gc.referee.tasks.tasks[0].control;
    assert!(!gc.set_command(Robot::Blue1, 1_000_000, 1_000_000, 1_000_000));
    assert!(!gc.set_command(Robot::Blue1, -2_000_000, 0, 5));
    assert_eq!(gc.referee.tasks.tasks[0].control, steer);
    assert!(!gc.set_kick(Robot::Blue1, 500_000));
    assert_eq!(gc.referee.tasks.tasks[0].kick, None);
    // A non-penalized robot accepts writes.
    assert!(gc.set_command(Robot::Blue2, 7, 8, 9));
    assert_eq!(gc.referee.tasks.tasks[1].control.x, 7);
}

#[test]
fn straight_run_advances_half_speed_capped() {
    // Scenario: command (1, 0, 0) to Blue1 for 50 ticks at 100 Hz moves it
    // by min(1, MAX_SPEED) * 0.5 in x, with orientation unchanged and the
    // ball untouched.
    let mut gc = fresh_gc();
    assert_eq!(FRAME_DURATION_MS, 10); // 100 Hz
    assert!(gc.set_command(Robot::Blue1, 1_000_000, 0, 0));
    for _ in 0..50 {
        let acts = gc.step_actuation();
        // The command exceeds the speed limit, so the mapped velocity is
        // exactly the limit, along +x (the robot faces +x at kickoff).
        assert_eq!(acts[0].linvel_x, MAX_SPEED * UNIT_SCALE);
        assert_eq!(acts[0].linvel_y, 0);
        assert_eq!(acts[0].angvel, 0);
        // The test plays the solver: exact integration, no contacts.
        let mut obs = observe_current(&gc);
        let mut b = obs.robots[0];
        b.x += acts[0].linvel_x * (FRAME_DURATION_MS as i64) / 1000;
        b.y += acts[0].linvel_y * (FRAME_DURATION_MS as i64) / 1000;
        obs.robots[0] = b;
        gc.step_observe(&obs);
    }
    let gs = gc.get_game_state();
    // 0.5 s at 0.55 m/s: 275 000 micrometers beyond the kickoff x.
    assert_eq!(gs.markers.blue1.x, -915_000 + 275_000);
    assert_eq!(gs.markers.blue1.y, 0);
    assert_eq!(gs.markers.blue1.orientation, 0);
    assert_eq!(gs.ball, Some((0, 0)));
    assert_eq!(gs.referee.teams.blue.score, 0);
    assert_eq!(gs.referee.teams.green.score, 0);
}

#[test]
fn possession_timer_single_penalty() {
    // P1: a non-penalized robot staying within the possession radius gets
    // exactly one "Ball abuse" penalty, at the tick the limit is exceeded.
    let mut gc = fresh_gc();
    // Put the ball right next to Blue1, inside the possession radius and
    // inside the field.
    gc.teleport_ball(-815_000, 0);
    for _ in 0..(BALL_ABUSE_TIME as usize) {
        tick_static(&mut gc);
        assert!(gc.referee.tasks.tasks[0].penalty.is_none());
    }
    // Tick BALL_ABUSE_TIME + 1 exceeds the limit.
    tick_static(&mut gc);
    let p = gc.referee.tasks.tasks[0].penalty.clone().unwrap();
    assert_eq!(p.reason, "Ball abuse");
    assert_eq!(p.end, BALL_ABUSE_TIME + 1 + PENALTY_DURATION);
    // Staying near the ball afterwards neither stacks nor extends it.
    for _ in 0..10 {
        tick_static(&mut gc);
        let q = gc.referee.tasks.tasks[0].penalty.clone().unwrap();
        assert_eq!(q.reason, "Ball abuse");
        assert_eq!(q.end, p.end);
    }
}

#[test]
fn penalty_expires_and_clears_command() {
    let mut gc = fresh_gc();
    gc.penalize(Robot::Green2, "short");
    let end = gc.referee.tasks.tasks[3].penalty.clone().unwrap().end;
    assert_eq!(end, PENALTY_DURATION);
    // Before the expiry tick the penalty stands and steers.
    while gc.simu.t + 1 < end {
        tick_static(&mut gc);
        assert!(gc.referee.tasks.tasks[3].penalty.is_some());
    }
    // The tick that reaches the expiry clears it and zeroes the command.
    tick_static(&mut gc);
    assert!(gc.referee.tasks.tasks[3].penalty.is_none());
    let c = gc.referee.tasks.tasks[3].control;
    assert_eq!((c.x, c.y, c.r), (0, 0, 0));
}

#[test]
fn goal_reset_and_score() {
    // P5: ball behind the negative goal line inside the goal mouth scores
    // for green, clears penalties, and the next snapshot shows kickoff.
    let mut gc = fresh_gc();
    gc.penalize(Robot::Blue2, "left over");
    gc.teleport_robot(Robot::Blue1, 100_000, 200_000, None);
    gc.teleport_ball(-920_000, 10_000);
    tick_static(&mut gc);
    let gs = gc.get_game_state();
    assert_eq!(gs.referee.teams.green.score, 1);
    assert_eq!(gs.referee.teams.blue.score, 0);
    assert!(!gs.referee.teams.blue.robots.two.penalized);
    assert_eq!(gs.ball, Some((0, 0)));
    assert_eq!(gs.markers.blue1.x, -915_000);
    assert_eq!(gs.markers.blue1.y, 0);
    // A goal on the positive side scores for blue.
    gc.teleport_ball(920_000, -10_000);
    tick_static(&mut gc);
    let gs = gc.get_game_state();
    assert_eq!(gs.referee.teams.blue.score, 1);
    assert_eq!(gs.referee.teams.green.score, 1);
}

#[test]
fn wide_ball_is_out_not_goal() {
    // Crossing the back line outside the goal mouth is out of bounds: the
    // ball is placed on the restart dot matching the exit signs.
    let mut gc = fresh_gc();
    gc.teleport_ball(-920_000, 400_000);
    tick_static(&mut gc);
    let gs = gc.get_game_state();
    assert_eq!(gs.referee.teams.green.score, 0);
    assert_eq!(gs.ball, Some((-457_500, 305_000)));
    // Out over a side line, negative y.
    gc.teleport_ball(100_000, -700_000);
    tick_static(&mut gc);
    let gs = gc.get_game_state();
    assert_eq!(gs.ball, Some((457_500, -305_000)));
}

#[test]
fn kick_consumed_once() {
    let mut gc = fresh_gc();
    assert!(gc.set_kick(Robot::Green1, 750_000));
    let acts = gc.step_actuation();
    assert_eq!(acts[2].kick, Some(750_000));
    assert_eq!(gc.referee.tasks.tasks[2].kick, None);
    let acts = gc.step_actuation();
    assert_eq!(acts[2].kick, None);
}

#[test]
fn find_entity_at_discs() {
    let gc = fresh_gc();
    assert_eq!(gc.find_entity_at(0, 0), Some(EntityHandle::Ball));
    assert_eq!(gc.find_entity_at(10_000, -5_000), Some(EntityHandle::Ball));
    assert_eq!(
        gc.find_entity_at(-915_000, 50_000),
        Some(EntityHandle::Robot(Robot::Blue1))
    );
    assert_eq!(gc.find_entity_at(-700_000, 300_000), None);
    assert_eq!(gc.get_ball_handle(), EntityHandle::Ball);
    assert_eq!(
        gc.get_robot_handle(Robot::Green2),
        EntityHandle::Robot(Robot::Green2)
    );
}

#[test]
fn kicker_pose_follows_offset() {
    let gc = fresh_gc();
    let p = gc.get_kicker_pose(Robot::Blue1);
    assert_eq!(p.x, -915_000 + 126_208);
    assert_eq!(p.y, 0);
    assert_eq!(p.orientation, 0);
    let p = gc.get_kicker_pose(Robot::Green2);
    assert_eq!(p.x, 915_000 - 126_208);
    assert_eq!(p.orientation, 3_141_593);
}

#[test]
fn timer_counts_seconds() {
    let mut gc = fresh_gc();
    for _ in 0..250 {
        tick_static(&mut gc);
    }
    // 250 ticks at 10 ms are 2.5 s; the timer shows whole seconds.
    let gs = gc.get_game_state();
    assert_eq!(gs.referee.timer, 2);
}

#[test]
fn penalized_remaining_seconds() {
    let mut gc = fresh_gc();
    gc.penalize(Robot::Blue1, "wait");
    let gs = gc.get_game_state();
    let block = &gs.referee.teams.blue.robots.one;
    assert!(block.penalized);
    assert_eq!(block.penalized_remaining, Some(5));
    assert_eq!(block.penalized_reason.as_deref(), Some("wait"));
    assert!(block.preempted);
    assert_eq!(block.preemption_reasons, vec!["wait".to_string()]);
    for _ in 0..100 {
        tick_static(&mut gc);
    }
    let gs = gc.get_game_state();
    // One second gone of the five.
    assert_eq!(
        gs.referee.teams.blue.robots.one.penalized_remaining,
        Some(4)
    );
}

#[test]
fn reset_returns_to_kickoff() {
    let mut gc = fresh_gc();
    gc.teleport_ball(300_000, 100_000);
    gc.teleport_robot(Robot::Blue2, -100_000, -100_000, None);
    gc.reset();
    let gs = gc.get_game_state();
    assert_eq!(gs.ball, Some((0, 0)));
    assert_eq!(gs.markers.blue2.x, -457_500);
    assert_eq!(gs.markers.blue2.y, 0);
}

#[test]
fn steering_on_spot_only_turns() {
    // A robot standing exactly on spot 0 and already facing the spot's
    // orientation gets no linear command and the formula's residual turn
    // rate: sqrt(0 + pi) capped at the angular limit.
    let body = BodyState {
        x: -4_575_000,
        y: 7_650_000,
        angle: AngleObs { urad: 1_570_796, cos_u: 0, sin_u: 1_000_000 },
    };
    let c = steering_command(&body, 0);
    assert_eq!(c.x, 0);
    assert_eq!(c.y, 0);
    // sqrt(pi) in these units exceeds the angular speed limit, so the
    // command is the limit itself, scaled back to interface units.
    assert_eq!(c.r, 100_000);
}

#[test]
fn mapper_rotates_into_world_frame() {
    // A robot facing +y turns a forward command into +y world velocity.
    let mut gc = fresh_gc();
    let quarter = AngleObs { urad: 1_570_796, cos_u: 0, sin_u: 1_000_000 };
    gc.teleport_robot(Robot::Blue2, 0, 0, Some(quarter));
    assert!(gc.set_command(Robot::Blue2, 1_000_000, 0, 0));
    let acts = gc.step_actuation();
    assert_eq!(acts[1].linvel_x, 0);
    assert_eq!(acts[1].linvel_y, MAX_SPEED * UNIT_SCALE);
}

#[test]
fn mapper_passes_slow_commands_through() {
    // Below the speed limit the command maps to itself in solver units,
    // and the direction of a diagonal command is kept.
    let mut gc = fresh_gc();
    let zero = AngleObs { urad: 0, cos_u: 1_000_000, sin_u: 0 };
    gc.teleport_robot(Robot::Green1, 0, 0, Some(zero));
    assert!(gc.set_command(Robot::Green1, 300_000, 400_000, 0));
    let acts = gc.step_actuation();
    assert_eq!(acts[2].linvel_x, 3_000_000);
    assert_eq!(acts[2].linvel_y, 4_000_000);
    // A backward command keeps its sign.
    assert!(gc.set_command(Robot::Green1, -100_000, 0, 0));
    let acts = gc.step_actuation();
    assert_eq!(acts[2].linvel_x, -1_000_000);
    assert_eq!(acts[2].linvel_y, 0);
}

#[test]
fn mapper_clamps_rotation() {
    let mut gc = fresh_gc();
    assert!(gc.set_command(Robot::Blue1, 0, 0, 200_000));
    let acts = gc.step_actuation();
    // 0.2 rad/s exceeds the angular limit of 0.1 rad/s.
    assert_eq!(acts[0].angvel, 1_000_000);
    assert_eq!(acts[0].linvel_x, 0);
    assert!(gc.set_command(Robot::Blue1, 0, 0, -50_000));
    let acts = gc.step_actuation();
    assert_eq!(acts[0].angvel, -500_000);
}

#[test]
fn robot_slots_round_trip() {
    let all = Robot::all();
    for (i, r) in all.iter().enumerate() {
        assert_eq!(r.index(), i);
        assert_eq!(Robot::from_index(i), *r);
    }
}

#[test]
fn penalty_start_clears_command() {
    // A fresh penalty discards the robot's stored external command at
    // once; extending the penalty later keeps whatever stands.
    let mut gc = fresh_gc();
    assert!(gc.set_command(Robot::Blue2, 5_000, 6_000, 7_000));
    gc.penalize(Robot::Blue2, "first");
    let c = gc.referee.tasks.tasks[1].control;
    assert_eq!((c.x, c.y, c.r), (0, 0, 0));
    gc.penalize(Robot::Blue2, "second");
    let c = gc.referee.tasks.tasks[1].control;
    assert_eq!((c.x, c.y, c.r), (0, 0, 0));
}

#[test]
fn kick_strength_saturated() {
    let mut gc = fresh_gc();
    assert!(gc.set_kick(Robot::Blue1, 5_000_000));
    assert_eq!(gc.referee.tasks.tasks[0].kick, Some(1_000_000));
    assert!(gc.set_kick(Robot::Blue1, -3));
    assert_eq!(gc.referee.tasks.tasks[0].kick, Some(0));
    assert!(gc.set_kick(Robot::Blue1, 400_000));
    assert_eq!(gc.referee.tasks.tasks[0].kick, Some(400_000));
}

#[test]
fn mapper_caps_euclidean_speed_diagonally() {
    // A huge command on a rotated robot still maps to a velocity whose
    // Euclidean length stays within one fixed-point unit of the limit.
    let mut gc = fresh_gc();
    let diag = AngleObs { urad: 785_398, cos_u: 707_106, sin_u: 707_106 };
    gc.teleport_robot(Robot::Blue1, 0, 0, Some(diag));
    assert!(gc.set_command(Robot::Blue1, 2_000_000_000, 0, 0));
    let acts = gc.step_actuation();
    let vx = acts[0].linvel_x as i128;
    let vy = acts[0].linvel_y as i128;
    let cap = (MAX_SPEED * UNIT_SCALE + 1) as i128;
    assert!(vx * vx + vy * vy <= cap * cap);
    // The direction still points along the robot's heading.
    assert!(vx > 3_000_000 && vy > 3_000_000);
}
