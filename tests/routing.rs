use bridge_host::events::{BridgeEvent, ConnectionState, Event, PrintInfo, StateDescription, WebsocketEvent};
use bridge_host::router::{Action, Router, Violation};

fn live_router() -> Router {
    let mut router = Router::new();
    let create = BridgeEvent::ConnectionCreate { address: "COM3".to_string(), port: 9600 };
    router.dispatch(Event::Bridge(create)).unwrap();
    router
}

fn to_bridge(actions: &[Action]) -> usize {
    actions.iter().filter(|a| matches!(a, Action::ToBridge(_))).count()
}

#[test]
fn create_then_second_create_is_violation() {
    let mut router = Router::new();
    assert!(!router.has_session());
    let create = BridgeEvent::ConnectionCreate { address: "COM3".to_string(), port: 9600 };
    let out = router.dispatch(Event::Bridge(create.clone())).unwrap();
    assert_eq!(out, vec![Action::SpawnBridge { address: "COM3".to_string(), port: 9600 }]);
    assert!(router.has_session());
    assert_eq!(router.dispatch(Event::Bridge(create)), Err(Violation::CreateWhileLive));
    assert!(router.has_session());
}

#[test]
fn disconnect_kills_and_mirrors() {
    let mut router = live_router();
    let description = StateDescription::Info { message: "port closed".to_string() };
    let update = BridgeEvent::StateUpdate { state: ConnectionState::Disconnected, description: description.clone() };
    let out = router.dispatch(Event::Bridge(update)).unwrap();
    assert_eq!(
        out,
        vec![
            Action::ToBridge(Event::Kill),
            Action::Publish(Event::Websocket(WebsocketEvent::StateUpdate {
                state: ConnectionState::Disconnected,
                description,
            })),
        ]
    );
    assert!(!router.has_session());
}

#[test]
fn errored_state_ends_session() {
    let mut router = live_router();
    let update = BridgeEvent::StateUpdate { state: ConnectionState::Errored, description: StateDescription::Empty };
    let out = router.dispatch(Event::Bridge(update)).unwrap();
    assert_eq!(out[0], Action::ToBridge(Event::Kill));
    assert_eq!(out.len(), 2);
    assert!(!router.has_session());
}

#[test]
fn connected_state_is_echoed_to_bridge() {
    let mut router = live_router();
    let update = BridgeEvent::StateUpdate { state: ConnectionState::Connected, description: StateDescription::Empty };
    let out = router.dispatch(Event::Bridge(update.clone())).unwrap();
    assert_eq!(
        out,
        vec![
            Action::ToBridge(Event::Bridge(update)),
            Action::Publish(Event::Websocket(WebsocketEvent::StateUpdate {
                state: ConnectionState::Connected,
                description: StateDescription::Empty,
            })),
        ]
    );
    assert!(router.has_session());
}

#[test]
fn state_update_without_session_is_dropped() {
    let mut router = Router::new();
    let update = BridgeEvent::StateUpdate { state: ConnectionState::Disconnected, description: StateDescription::Empty };
    assert_eq!(router.dispatch(Event::Bridge(update)), Ok(vec![]));
    assert!(!router.has_session());
}

#[test]
fn terminal_send_without_session_is_dropped() {
    let mut router = Router::new();
    let send = BridgeEvent::TerminalSend { message: "G28".to_string() };
    assert_eq!(router.dispatch(Event::Bridge(send)), Ok(vec![]));
    assert!(!router.has_session());
}

#[test]
fn print_start_without_session_is_dropped() {
    let mut router = Router::new();
    let info = PrintInfo { name: "cube.gcode".to_string(), content: "G1 X10".to_string() };
    assert_eq!(router.dispatch(Event::Bridge(BridgeEvent::PrintStart { info })), Ok(vec![]));
}

#[test]
fn print_end_is_always_forwarded() {
    let mut idle = Router::new();
    let expected = vec![Action::ToBridge(Event::Bridge(BridgeEvent::PrintEnd))];
    assert_eq!(idle.dispatch(Event::Bridge(BridgeEvent::PrintEnd)), Ok(expected.clone()));
    let mut live = live_router();
    assert_eq!(live.dispatch(Event::Bridge(BridgeEvent::PrintEnd)), Ok(expected));
}

#[test]
fn terminal_read_is_published_once() {
    let mut router = live_router();
    let read = BridgeEvent::TerminalRead { message: "ok".to_string() };
    let out = router.dispatch(Event::Bridge(read)).unwrap();
    let mirrored = Event::Websocket(WebsocketEvent::TerminalRead { message: "ok".to_string() });
    assert_eq!(out, vec![Action::Publish(mirrored.clone())]);
    assert_eq!(to_bridge(&out), 0);
    let next = router.dispatch(mirrored.clone()).unwrap();
    assert_eq!(next, vec![Action::ToWebsocket(mirrored)]);
}

#[test]
fn terminal_send_with_session_goes_both_ways() {
    let mut router = live_router();
    let send = BridgeEvent::TerminalSend { message: "G28".to_string() };
    let out = router.dispatch(Event::Bridge(send.clone())).unwrap();
    assert_eq!(
        out,
        vec![
            Action::ToBridge(Event::Bridge(send)),
            Action::Publish(Event::Websocket(WebsocketEvent::TerminalSend { message: "G28".to_string() })),
        ]
    );
}

#[test]
fn connection_error_aborts_session() {
    let mut router = live_router();
    let failure = BridgeEvent::ConnectionCreateError { error: "timeout".to_string() };
    let out = router.dispatch(Event::Bridge(failure)).unwrap();
    assert_eq!(
        out,
        vec![
            Action::Publish(Event::Websocket(WebsocketEvent::StateUpdate {
                state: ConnectionState::Errored,
                description: StateDescription::Error { message: "timeout".to_string() },
            })),
            Action::AbortBridge,
        ]
    );
    assert!(!router.has_session());
}

#[test]
fn connection_error_without_session_is_violation() {
    let mut router = Router::new();
    let failure = BridgeEvent::ConnectionCreateError { error: "timeout".to_string() };
    assert_eq!(router.dispatch(Event::Bridge(failure)), Err(Violation::ErrorWithoutSession));
    assert!(!router.has_session());
}

#[test]
fn kill_at_router_is_ignored() {
    let mut router = live_router();
    assert_eq!(router.dispatch(Event::Kill), Ok(vec![]));
    assert!(router.has_session());
}

#[test]
fn session_can_be_recreated_after_teardown() {
    let mut router = live_router();
    let update = BridgeEvent::StateUpdate { state: ConnectionState::Disconnected, description: StateDescription::Empty };
    router.dispatch(Event::Bridge(update)).unwrap();
    let create = BridgeEvent::ConnectionCreate { address: "/dev/ttyUSB0".to_string(), port: 115200 };
    let out = router.dispatch(Event::Bridge(create)).unwrap();
    assert_eq!(out, vec![Action::SpawnBridge { address: "/dev/ttyUSB0".to_string(), port: 115200 }]);
}

#[test]
fn session_ending_states() {
    assert!(ConnectionState::Disconnected.is_session_ending());
    assert!(ConnectionState::Errored.is_session_ending());
    assert!(!ConnectionState::Connected.is_session_ending());
    assert!(!ConnectionState::Connecting.is_session_ending());
    assert!(!ConnectionState::Printing.is_session_ending());
}

#[test]
fn long_run_never_opens_two_sessions() {
    let mut router = Router::new();
    let create = || Event::Bridge(BridgeEvent::ConnectionCreate { address: "COM3".to_string(), port: 9600 });
    let down = || Event::Bridge(BridgeEvent::StateUpdate {
        state: ConnectionState::Errored,
        description: StateDescription::Error { message: "unplugged".to_string() },
    });
    let failure = || Event::Bridge(BridgeEvent::ConnectionCreateError { error: "timeout".to_string() });
    let events = vec![create(), create(), down(), down(), create(), failure(), failure(), create()];
    let mut open: i32 = 0;
    for event in events {
        if let Ok(actions) = router.dispatch(event) {
            for action in actions {
                match action {
                    Action::SpawnBridge { .. } => open += 1,
                    Action::AbortBridge | Action::ToBridge(Event::Kill) => open -= 1,
                    _ => {}
                }
            }
        }
        assert!(open == 0 || open == 1);
        assert_eq!(open == 1, router.has_session());
    }
    assert_eq!(open, 1);
}
