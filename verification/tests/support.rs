use rsk_simulation::control::{process_control_request, CtrlRes, ReqArg};
use rsk_simulation::game_controller::GC;
use rsk_simulation::game_state::{GameState, Markers, Referee, RefereeTeam, RefereeTeamRobot, Robot};
use rsk_simulation::maths::{
    abs_i64, clamp_i64, dist_sq_i64, isqrt_u128, scale_down_i64, scale_up_i64, sign_pos_i64,
    wrap_angle,
};
use rsk_simulation::wasm_server_runner::{
    get_snippet_source, parse_usize, pick_free_port, Certificate, Options, WasmBindgenOutput,
};
use rsk_simulation::zeromq::{ZmqEmptyMessageError, ZmqMessage};

fn fresh_gc() -> GC {
    GC::new(
        "blue team".to_string(),
        "green team".to_string(),
        "blue key".to_string(),
        "green key".to_string(),
        true,
    )
}

fn control_cmd(x: i64, y: i64, r: i64) -> Vec<ReqArg> {
    vec![
        ReqArg::Str("control".to_string()),
        ReqArg::Num(x),
        ReqArg::Num(y),
        ReqArg::Num(r),
    ]
}

#[test]
fn control_request_unknown_team() {
    let mut gc = fresh_gc();
    let res = process_control_request(
        &mut gc,
        "blue key".to_string(),
        "ball".to_string(),
        1,
        control_cmd(1, 2, 3),
    );
    assert!(matches!(res, CtrlRes::UnknownError));
}

#[test]
fn control_request_bad_key() {
    let mut gc = fresh_gc();
    let res = process_control_request(
        &mut gc,
        "wrong".to_string(),
        "green".to_string(),
        1,
        control_cmd(1, 2, 3),
    );
    match res {
        CtrlRes::BadKey(team) => assert_eq!(team, "green"),
        other => panic!("unexpected result: {:?}", other),
    }
}

#[test]
fn control_request_unknown_robot() {
    let mut gc = fresh_gc();
    let res = process_control_request(
        &mut gc,
        "blue key".to_string(),
        "blue".to_string(),
        3,
        control_cmd(1, 2, 3),
    );
    match res {
        CtrlRes::UnknownRobot(team, n) => {
            assert_eq!(team, "blue");
            assert_eq!(n, 3);
        }
        other => panic!("unexpected result: {:?}", other),
    }
}

#[test]
fn control_request_preempted() {
    let mut gc = fresh_gc();
    gc.penalize(Robot::Green2, "busy");
    let before = gc.referee.tasks.tasks[3].control;
    let res = process_control_request(
        &mut gc,
        "green key".to_string(),
        "green".to_string(),
        2,
        control_cmd(5, 6, 7),
    );
    match res {
        CtrlRes::Preempted(team, n, reason) => {
            assert_eq!(team, "green");
            assert_eq!(n, 2);
            assert_eq!(reason, "busy");
        }
        other => panic!("unexpected result: {:?}", other),
    }
    assert_eq!(gc.referee.tasks.tasks[3].control, before);
}

#[test]
fn control_request_stores_command() {
    let mut gc = fresh_gc();
    let res = process_control_request(
        &mut gc,
        "blue key".to_string(),
        "blue".to_string(),
        2,
        control_cmd(100_000, -200_000, 300),
    );
    assert!(matches!(res, CtrlRes::Accepted));
    let c = gc.referee.tasks.tasks[1].control;
    assert_eq!((c.x, c.y, c.r), (100_000, -200_000, 300));
    // A non-numeric argument counts as zero.
    let res = process_control_request(
        &mut gc,
        "blue key".to_string(),
        "blue".to_string(),
        2,
        vec![
            ReqArg::Str("control".to_string()),
            ReqArg::Other,
            ReqArg::Num(4),
            ReqArg::Str("x".to_string()),
        ],
    );
    assert!(matches!(res, CtrlRes::Accepted));
    let c = gc.referee.tasks.tasks[1].control;
    assert_eq!((c.x, c.y, c.r), (0, 4, 0));
}

#[test]
fn control_request_kick_and_unknown_shape() {
    let mut gc = fresh_gc();
    let res = process_control_request(
        &mut gc,
        "green key".to_string(),
        "green".to_string(),
        1,
        vec![ReqArg::Str("kick".to_string()), ReqArg::Num(800_000)],
    );
    assert!(matches!(res, CtrlRes::Accepted));
    assert_eq!(gc.referee.tasks.tasks[2].kick, Some(800_000));
    let res = process_control_request(
        &mut gc,
        "green key".to_string(),
        "green".to_string(),
        1,
        vec![ReqArg::Str("dance".to_string()), ReqArg::Num(1)],
    );
    assert!(matches!(res, CtrlRes::UnknownCommand));
    let res = process_control_request(
        &mut gc,
        "green key".to_string(),
        "green".to_string(),
        1,
        vec![ReqArg::Num(1), ReqArg::Num(2)],
    );
    assert!(matches!(res, CtrlRes::UnknownCommand));
}

#[test]
fn zmq_message_frames() {
    assert!(ZmqMessage::try_from_frames(vec![]).is_err());
    let err = ZmqEmptyMessageError;
    assert_eq!(err.describe(), "Unable to construct an empty ZmqMessage");
    let mut m = ZmqMessage::try_from_frames(vec![vec![1, 2], vec![3]]).unwrap();
    assert_eq!(m.len(), 2);
    assert!(!m.is_empty());
    m.push_back(vec![4, 5]);
    m.push_front(vec![0]);
    assert_eq!(m.len(), 4);
    assert_eq!(m.get(0), Some(&vec![0]));
    assert_eq!(m.get(3), Some(&vec![4, 5]));
    assert_eq!(m.get(4), None);
    assert_eq!(m.pop_front(), Some(vec![0]));
    assert_eq!(m.len(), 3);
    let tail = m.split_off(1);
    assert_eq!(m.len(), 1);
    assert_eq!(tail.len(), 2);
    assert_eq!(tail.get(0), Some(&vec![3]));
}

#[test]
fn zmq_message_prepend_and_single() {
    let mut m = ZmqMessage::from_frame(vec![9]);
    let head = ZmqMessage::try_from_frames(vec![vec![1], vec![2]]).unwrap();
    m.prepend(&head);
    assert_eq!(m.len(), 3);
    assert_eq!(m.get(0), Some(&vec![1]));
    assert_eq!(m.get(1), Some(&vec![2]));
    assert_eq!(m.get(2), Some(&vec![9]));
    assert!(m.into_single_frame().is_err());
    let single = ZmqMessage::from_frame(vec![7, 8]);
    assert_eq!(single.into_single_frame(), Ok(vec![7, 8]));
}

#[test]
fn zmq_envelope_split() {
    // The envelope runs up to and including the first empty frame.
    let mut m =
        ZmqMessage::try_from_frames(vec![vec![10], vec![], vec![1, 1], vec![2, 2]]).unwrap();
    let data = m.split_envelope();
    assert_eq!(m.len(), 2);
    assert_eq!(data.len(), 2);
    assert_eq!(data.get(0), Some(&vec![1, 1]));
    // Without an empty frame the first frame alone is the envelope.
    let mut m = ZmqMessage::try_from_frames(vec![vec![10], vec![1, 1]]).unwrap();
    let data = m.split_envelope();
    assert_eq!(m.len(), 1);
    assert_eq!(data.len(), 1);
    assert_eq!(data.get(0), Some(&vec![1, 1]));
}

#[test]
fn pick_free_port_first_free() {
    assert_eq!(pick_free_port(1334, &vec![false, false, true, true]), Some(1336));
    assert_eq!(pick_free_port(1334, &vec![true]), Some(1334));
    assert_eq!(pick_free_port(1334, &vec![false, false]), None);
    assert_eq!(pick_free_port(9000, &vec![]), None);
}

#[test]
fn parse_usize_decimal() {
    let b = "snippet/inline123.js".as_bytes();
    assert_eq!(parse_usize(b, 14, 17), Some(123));
    assert_eq!(parse_usize(b, 14, 14), None); // empty
    assert_eq!(parse_usize(b, 0, 3), None); // letters
    let big = "99999999999999999999999999".as_bytes();
    assert_eq!(parse_usize(big, 0, big.len()), None); // overflow
    let zero = "0".as_bytes();
    assert_eq!(parse_usize(zero, 0, 1), Some(0));
}

#[test]
fn snippet_source_resolution() {
    let local_modules = vec![(
        "mod.js".to_string(),
        "export default 1;".to_string(),
    )];
    let snippets = vec![(
        "family".to_string(),
        vec!["first".to_string(), "second".to_string()],
    )];
    // A local module wins by its full path.
    assert_eq!(
        get_snippet_source("mod.js", &local_modules, &snippets),
        Ok("export default 1;".to_string())
    );
    // A snippet path selects family and index.
    assert_eq!(
        get_snippet_source("family/inline1.js", &local_modules, &snippets),
        Ok("second".to_string())
    );
    assert_eq!(
        get_snippet_source("nope", &local_modules, &snippets),
        Err("invalid snippet path")
    );
    assert_eq!(
        get_snippet_source("family/outline1.js", &local_modules, &snippets),
        Err("invalid snippet name in path")
    );
    assert_eq!(
        get_snippet_source("family/inline.js", &local_modules, &snippets),
        Err("invalid index")
    );
    assert_eq!(
        get_snippet_source("other/inline0.js", &local_modules, &snippets),
        Err("invalid snippet name")
    );
    assert_eq!(
        get_snippet_source("family/inline2.js", &local_modules, &snippets),
        Err("snippet index out of bounds")
    );
}

#[test]
fn runner_data_types_hold_plain_values() {
    let options = Options {
        title: "demo".to_string(),
        address: "127.0.0.1".to_string(),
        directory: ".".to_string(),
        custom_index_html: None,
        https: false,
        no_module: true,
    };
    assert_eq!(options.address, "127.0.0.1");
    let output = WasmBindgenOutput {
        js: "console.log(1)".to_string(),
        wasm: vec![0, 97, 115, 109],
        snippets: vec![],
        local_modules: vec![],
    };
    assert_eq!(output.wasm.len(), 4);
    let cert = Certificate {
        certificate: vec![48, 130],
        private_key: vec![48, 129],
    };
    assert_eq!(cert.certificate[0], cert.private_key[0]);
}

#[test]
fn math_helpers_exact() {
    assert_eq!(isqrt_u128(0), 0);
    assert_eq!(isqrt_u128(1), 1);
    assert_eq!(isqrt_u128(99), 9);
    assert_eq!(isqrt_u128(100), 10);
    assert_eq!(isqrt_u128(10_000_000_000_000_0), 10_000_000); // 1e14
    assert_eq!(clamp_i64(5, -3, 3), 3);
    assert_eq!(clamp_i64(-5, -3, 3), -3);
    assert_eq!(clamp_i64(2, -3, 3), 2);
    assert_eq!(abs_i64(-7), 7);
    assert_eq!(sign_pos_i64(0), 1);
    assert_eq!(sign_pos_i64(-2), -1);
    assert_eq!(scale_up_i64(-123), -1230);
    assert_eq!(scale_down_i64(-1230), -123);
    assert_eq!(scale_down_i64(-1234), -123); // toward zero
    assert_eq!(scale_down_i64(1234), 123);
    assert_eq!(dist_sq_i64(3, 4, 0, 0), 25);
    // Wrapping stays inside (-pi, pi].
    assert_eq!(wrap_angle(3_141_593), 3_141_593);
    assert_eq!(wrap_angle(3_141_594), 3_141_594 - 6_283_185);
    assert_eq!(wrap_angle(-3_141_593), -3_141_593 + 6_283_185);
    assert_eq!(wrap_angle(-3_141_592), -3_141_592);
}

#[test]
fn default_snapshot_ready_to_start() {
    let gs = GameState::default();
    assert_eq!(gs.ball, Some((0, 0)));
    assert!(!gs.referee.game_is_running);
    assert_eq!(gs.referee.game_state_msg, "Game is ready to start");
    let m = Markers::default();
    assert_eq!(m.blue1.x, -915_000);
    assert_eq!(m.green1.orientation, 3_141_593);
    let r = Referee::default();
    assert_eq!(r.timer, 0);
    let t = RefereeTeam::default();
    assert_eq!(t.name, "");
    assert!(t.x_positive);
    let rr = RefereeTeamRobot::default();
    assert!(!rr.penalized && !rr.preempted);
    assert!(rr.preemption_reasons.is_empty());
}
