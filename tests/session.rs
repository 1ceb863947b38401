use vehicle_relay::command::parse_command;
use vehicle_relay::connection::{ActorAction, ConnectionActor, Inbound, Phase};
use vehicle_relay::dispatch::{on_line, on_payload, DispatchAction};
use vehicle_relay::error::RelayError;
use vehicle_relay::events::{EventMessage, Objects, Operations};
use vehicle_relay::registry::Registry;

#[test]
fn registry_last_writer_wins() {
    let mut reg: Registry<u32> = Registry::new();
    assert_eq!(reg.get(), Err(RelayError::NoActiveConnection));
    assert!(!reg.is_connected());
    reg.set(1);
    reg.set(2);
    assert_eq!(reg.get(), Ok(&2));
    assert!(reg.is_connected());
}

#[test]
fn start_registers_the_connection() {
    let mut reg: Registry<&str> = Registry::new();
    let first = ConnectionActor::start(0, "first", &mut reg);
    let second = ConnectionActor::start(10, "second", &mut reg);
    assert_eq!(reg.get(), Ok(&"second"));
    assert_eq!(first.phase(), Phase::Open);
    assert_eq!(second.last_heartbeat(), 10);
}

#[test]
fn heartbeat_timeout_closes_on_first_tick_after_deadline() {
    let t = 1_000;
    let mut a = ConnectionActor::new(t);
    assert_eq!(a.on_timer(t + 5_000), ActorAction::SendPing);
    assert_eq!(a.on_timer(t + 10_000), ActorAction::SendPing);
    assert_eq!(a.phase(), Phase::Open);
    assert_eq!(a.on_timer(t + 10_001), ActorAction::Stop);
    assert_eq!(a.phase(), Phase::Closing);
    assert_eq!(a.on_timer(t + 15_000), ActorAction::Idle);
    a.on_closed();
    assert_eq!(a.phase(), Phase::Closed);
}

#[test]
fn pong_resets_the_heartbeat() {
    let mut a = ConnectionActor::new(0);
    assert_eq!(a.on_frame(Inbound::Pong, 9_000), ActorAction::Idle);
    assert_eq!(a.last_heartbeat(), 9_000);
    assert_eq!(a.on_timer(15_000), ActorAction::SendPing);
    assert_eq!(a.on_timer(19_001), ActorAction::Stop);
}

#[test]
fn text_is_logged_and_other_frames_close() {
    let mut a = ConnectionActor::new(0);
    assert_eq!(a.on_frame(Inbound::Text, 1), ActorAction::LogText);
    assert_eq!(a.phase(), Phase::Open);
    assert_eq!(a.on_frame(Inbound::Other, 2), ActorAction::Stop);
    assert_eq!(a.phase(), Phase::Closing);
    assert_eq!(a.on_frame(Inbound::Pong, 3), ActorAction::Idle);
    assert_eq!(a.last_heartbeat(), 0);
}

#[test]
fn delivery_writes_one_frame_while_open() {
    let mut a = ConnectionActor::new(0);
    let m = EventMessage::new(Operations::Enable, Objects::Friend, Some(b"hi".to_vec()));
    assert_eq!(a.deliver(&m), ActorAction::SendFrame(vec![0x03, 0x02, 0x00, 0x02, b'h', b'i']));
    let big = EventMessage::new(Operations::Enable, Objects::Friend, Some(vec![0u8; 65536]));
    assert_eq!(a.deliver(&big), ActorAction::Refuse(RelayError::PayloadTooLarge));
    assert_eq!(a.phase(), Phase::Open);
    a.on_frame(Inbound::Other, 1);
    assert_eq!(a.deliver(&m), ActorAction::Idle);
}

#[test]
fn bad_line_then_good_line_delivers_once() {
    let mut reg: Registry<u8> = Registry::new();
    reg.set(7);
    let lines = ["launch friend\n", "issue owner\n"];
    let mut delivered = Vec::new();
    for line in lines {
        match on_line(Some(line), &reg) {
            DispatchAction::Deliver(m) => delivered.push(m),
            DispatchAction::Skip(_) => {}
            other => panic!("unexpected {:?}", other),
        }
    }
    assert_eq!(delivered, vec![EventMessage::new(Operations::IssueCertificate, Objects::Owner, None)]);
    assert_eq!(on_line(None, &reg), DispatchAction::Stop);
}

#[test]
fn no_connection_skips_delivery() {
    let reg: Registry<u8> = Registry::new();
    assert_eq!(on_line(Some("enable owner"), &reg), DispatchAction::Skip(RelayError::NoActiveConnection));
    assert_eq!(on_line(Some("enable"), &reg), DispatchAction::Skip(RelayError::MissingArguments));
}

#[test]
fn payload_lines_ask_for_a_read() {
    let mut reg: Registry<u8> = Registry::new();
    reg.set(1);
    let action = on_line(Some("disable middle note.txt"), &reg);
    let cmd = parse_command("disable middle note.txt").unwrap();
    assert_eq!(action, DispatchAction::ReadPayload(cmd.clone()));
    assert_eq!(
        on_payload(cmd.clone(), Some(b"x".to_vec()), &reg),
        DispatchAction::Deliver(EventMessage::new(Operations::Disable, Objects::Middle, Some(b"x".to_vec())))
    );
    assert_eq!(on_payload(cmd, None, &reg), DispatchAction::Skip(RelayError::PayloadReadFailure));
}
