//! The relay session state machine: forwarding, termination, cancellation,
//! and isolation between sessions.

use milkman::lifecycle::Lifecycle;
use milkman::relay::ClientFrame;
use milkman::relay::RobotDirective;
use milkman::relay::RobotFrame;
use milkman::relay::Session;
use milkman::relay::process_robot_message;

const ROBOT_STATE_INIT: &str = "{\"type\":\"ROBOT_STATE\",\"activeOpModeName\":\"Auto1\",\"opModeState\":\"INIT\",\"flavour\":\"DRIVER_CONTROLLED\"}";

#[test]
fn client_text_is_forwarded_verbatim() {
    let mut s = Session::new();
    let out = s.on_client_frame(&ClientFrame::Text(String::from("{\"type\": \"STOP_OP_MODE\"}")));
    assert_eq!(out.as_deref(), Some("{\"type\": \"STOP_OP_MODE\"}"));
    assert!(s.is_live());
}

#[test]
fn client_other_frames_are_ignored() {
    let mut s = Session::new();
    assert_eq!(s.on_client_frame(&ClientFrame::Other), None);
    assert!(s.is_live());
}

#[test]
fn robot_text_produces_fragment_in_live_session() {
    let mut s = Session::new();
    let out = s.on_robot_frame(&RobotFrame::Text(String::from(ROBOT_STATE_INIT)));
    let out = out.expect("a decodable ROBOT_STATE frame yields a fragment");
    assert!(out.contains("Auto1 INIT"));
    assert!(s.is_live());
}

#[test]
fn undecodable_robot_text_is_skipped_and_loop_continues() {
    let mut s = Session::new();
    assert_eq!(s.on_robot_frame(&RobotFrame::Text(String::from("{oops"))), None);
    assert!(s.is_live());
    // The next frame is still processed.
    let out = s.on_robot_frame(&RobotFrame::Text(String::from(ROBOT_STATE_INIT)));
    assert!(out.is_some());
}

#[test]
fn close_from_robot_ends_both_loops() {
    let mut s = Session::new();
    assert_eq!(s.on_robot_frame(&RobotFrame::Close), None);
    assert!(!s.is_live());
    // Nothing is forwarded on this session afterward, in either direction.
    assert_eq!(s.on_robot_frame(&RobotFrame::Text(String::from(ROBOT_STATE_INIT))), None);
    assert_eq!(s.on_client_frame(&ClientFrame::Text(String::from("x"))), None);
}

#[test]
fn close_from_client_ends_both_loops() {
    let mut s = Session::new();
    assert_eq!(s.on_client_frame(&ClientFrame::Close), None);
    assert!(!s.is_live());
    assert_eq!(s.on_client_frame(&ClientFrame::Text(String::from("x"))), None);
    assert_eq!(s.on_robot_frame(&RobotFrame::Text(String::from(ROBOT_STATE_INIT))), None);
}

#[test]
fn stream_end_ends_both_loops() {
    // An exhausted receive stream is terminal: the loop must not keep
    // polling a dead stream.
    let mut s = Session::new();
    assert_eq!(s.on_robot_frame(&RobotFrame::StreamEnd), None);
    assert!(!s.is_live());
    assert_eq!(s.on_robot_frame(&RobotFrame::Text(String::from(ROBOT_STATE_INIT))), None);

    let mut s = Session::new();
    assert_eq!(s.on_client_frame(&ClientFrame::StreamEnd), None);
    assert!(!s.is_live());
}

#[test]
fn write_failure_ends_both_loops() {
    // A failed write is session-terminal, like a failed read.
    let mut s = Session::new();
    s.on_upstream_write_failure();
    assert!(!s.is_live());
    assert_eq!(s.on_client_frame(&ClientFrame::Text(String::from("x"))), None);

    let mut s = Session::new();
    s.on_client_write_failure();
    assert!(!s.is_live());
    assert_eq!(s.on_robot_frame(&RobotFrame::Text(String::from(ROBOT_STATE_INIT))), None);
}

#[test]
fn dispatch_is_a_function_of_the_frame() {
    // Two calls on equal frames give equal results.
    let a = process_robot_message(&RobotFrame::Text(String::from(ROBOT_STATE_INIT)));
    let b = process_robot_message(&RobotFrame::Text(String::from(ROBOT_STATE_INIT)));
    match (a, b) {
        (RobotDirective::Forward(m1), RobotDirective::Forward(m2)) => assert_eq!(m1, m2),
        _ => panic!("expected the same forwarded fragment twice"),
    }
}

#[test]
fn read_error_ends_both_loops() {
    let mut s = Session::new();
    assert_eq!(s.on_robot_frame(&RobotFrame::ReadError), None);
    assert!(!s.is_live());

    let mut s = Session::new();
    assert_eq!(s.on_client_frame(&ClientFrame::ReadError), None);
    assert!(!s.is_live());
}

#[test]
fn sessions_do_not_cross_deliver() {
    // Two concurrent sessions: closing one, or feeding it garbage, never
    // changes what the other delivers to its own client.
    let mut a = Session::new();
    let mut b = Session::new();
    assert_eq!(b.on_robot_frame(&RobotFrame::Close), None);
    let a_out = a.on_robot_frame(&RobotFrame::Text(String::from(ROBOT_STATE_INIT)));
    let b_out = b.on_robot_frame(&RobotFrame::Text(String::from(ROBOT_STATE_INIT)));
    assert!(a_out.is_some());
    assert_eq!(b_out, None);
    assert!(a.is_live());
}

#[test]
fn directive_for_each_frame_kind() {
    let d = process_robot_message(&RobotFrame::Text(String::from(ROBOT_STATE_INIT)));
    match d {
        RobotDirective::Forward(m) => assert!(m.contains("Auto1 INIT")),
        _ => panic!("expected a forwarded fragment"),
    }
    assert!(matches!(
        process_robot_message(&RobotFrame::Text(String::from("not json"))),
        RobotDirective::Skip
    ));
    assert!(matches!(process_robot_message(&RobotFrame::Other), RobotDirective::Skip));
    assert!(matches!(process_robot_message(&RobotFrame::Close), RobotDirective::Terminate));
    assert!(matches!(process_robot_message(&RobotFrame::ReadError), RobotDirective::Terminate));
}

#[test]
fn lifecycle_rejects_second_start() {
    let mut l = Lifecycle::new();
    assert!(!l.is_alive());
    assert!(l.try_start());
    assert!(l.is_alive());
    // A start against an already-live instance is rejected.
    assert!(!l.try_start());
    assert!(l.is_alive());
    l.stop();
    assert!(!l.is_alive());
    assert!(l.try_start());
}
