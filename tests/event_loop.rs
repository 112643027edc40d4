use hmtk::device::{decode_status, DeviceOptions};
use hmtk::error::InvalidStatus;
use hmtk::event_loop::{LoopAction, LoopControl, LoopEvent, LoopState};

const STATUS: &str = "p1=1,p2=1,w1=23,w2=23,pe=99,o1=1,o2=1,do=80,lv=200,cj=2,kn=2217,g1=1,g2=0,tl=27,th=27,l0=1";

fn control() -> LoopControl {
    LoopControl::new(&DeviceOptions { ty: "HMA-1".to_owned(), mac: "abc".to_owned() })
}

fn publish(topic: &str, payload: &str) -> LoopEvent {
    LoopEvent::Publish { topic: topic.to_owned(), payload: payload.as_bytes().to_vec() }
}

const TOPIC: &str = "hame_energy/HMA-1/device/abc/ctrl";

#[test]
fn disconnect_then_abort_exits_cleanly() {
    let mut c = control();
    assert!(matches!(c.step(LoopEvent::OutgoingDisconnect), LoopAction::Observe));
    assert_eq!(c.state(), LoopState::DisconnectRequested);
    assert!(matches!(c.step(LoopEvent::Incoming), LoopAction::Observe));
    assert!(matches!(c.step(LoopEvent::ConnectionAborted), LoopAction::Exit));
    assert_eq!(c.state(), LoopState::Terminated);
    assert!(matches!(c.step(LoopEvent::ConnectionError), LoopAction::Exit));
}

#[test]
fn abort_without_disconnect_is_a_warning() {
    let mut c = control();
    assert!(matches!(c.step(LoopEvent::ConnectionAborted), LoopAction::Warn));
    assert_eq!(c.state(), LoopState::Running);
    assert!(matches!(c.step(LoopEvent::ConnectionError), LoopAction::Warn));
    assert!(matches!(c.step(LoopEvent::Outgoing), LoopAction::Observe));
    assert_eq!(c.state(), LoopState::Running);
}

#[test]
fn status_publish_is_decoded_and_published() {
    let mut c = control();
    match c.step(publish(TOPIC, STATUS)) {
        LoopAction::Publish(raw) => assert_eq!(raw, decode_status(STATUS.as_bytes().to_vec()).unwrap()),
        other => panic!("unexpected {other:?}"),
    }
    let second = STATUS.replace("pe=99", "pe=42");
    match c.step(publish(TOPIC, &second)) {
        LoopAction::Publish(raw) => assert_eq!(raw.pe.0, 42),
        other => panic!("unexpected {other:?}"),
    }
    assert_eq!(c.state(), LoopState::Running);
}

#[test]
fn bad_status_is_discarded_and_loop_continues() {
    let mut c = control();
    assert!(matches!(
        c.step(publish(TOPIC, "garbage")),
        LoopAction::Discard(InvalidStatus::InvalidFormat(_))
    ));
    assert!(matches!(c.step(publish(TOPIC, "p1=1")), LoopAction::Discard(InvalidStatus::MissingField("p2"))));
    assert_eq!(c.state(), LoopState::Running);
}

#[test]
fn other_topics_are_only_observed() {
    let mut c = control();
    assert!(matches!(c.step(publish("hame_energy/HMA-1/App/abc/ctrl", "cd=1")), LoopAction::Observe));
}

#[test]
fn loop_exits_when_readers_are_gone() {
    let mut c = control();
    assert!(matches!(c.step(LoopEvent::ReadersGone), LoopAction::Exit));
    assert_eq!(c.state(), LoopState::Terminated);
}
