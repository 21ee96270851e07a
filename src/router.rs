use vstd::prelude::*;
use crate::events::{ends_session, BridgeEvent, ConnectionState, Event, StateDescription, WebsocketEvent};

verus! {

/// What the host must do on the router's behalf, in the order given.
#[derive(Clone, Debug, PartialEq, Eq)]
pub enum Action {
    /// Start a device-bridge worker bound to `address:port`.
    SpawnBridge { address: String, port: u32 },
    /// Forcibly abort the running device-bridge worker.
    AbortBridge,
    /// Send on the bridge-outbound channel.
    ToBridge(Event),
    /// Put back on the distribution channel, for the router to route again.
    Publish(Event),
    /// Send on the websocket-outbound channel.
    ToWebsocket(Event),
}

/// A contradiction between an event and the router's belief about the session.
#[derive(Clone, Copy, Debug, PartialEq, Eq, Structural)]
pub enum Violation {
    /// A connection was requested while one is still believed live.
    CreateWhileLive,
    /// A connection error arrived while no session existed.
    ErrorWithoutSession,
}

/// The violation, if any, that `event` amounts to when the session is `live`.
pub open spec fn violation_of(live: bool, event: Event) -> Option<Violation> {
    match event {
        Event::Bridge(BridgeEvent::ConnectionCreate { .. }) => if live {
            Some(Violation::CreateWhileLive)
        } else {
            None
        },
        Event::Bridge(BridgeEvent::ConnectionCreateError { .. }) => if live {
            None
        } else {
            Some(Violation::ErrorWithoutSession)
        },
        _ => None,
    }
}

/// Whether a session is live after `event` is accepted.
pub open spec fn live_after(live: bool, event: Event) -> bool {
    match event {
        Event::Bridge(BridgeEvent::ConnectionCreate { .. }) => true,
        Event::Bridge(BridgeEvent::ConnectionCreateError { .. }) => false,
        Event::Bridge(BridgeEvent::StateUpdate { state, .. }) => live && !ends_session(state),
        _ => live,
    }
}

/// The actions that an accepted `event` gives rise to when the session is `live`.
pub open spec fn actions_of(live: bool, event: Event) -> Seq<Action> {
    match event {
        Event::Bridge(BridgeEvent::ConnectionCreate { address, port }) => seq![
            Action::SpawnBridge { address, port },
        ],
        Event::Bridge(BridgeEvent::ConnectionCreateError { error }) => seq![
            Action::Publish(
                Event::Websocket(
                    WebsocketEvent::StateUpdate {
                        state: ConnectionState::Errored,
                        description: StateDescription::Error { message: error },
                    },
                ),
            ),
            Action::AbortBridge,
        ],
        Event::Bridge(BridgeEvent::TerminalRead { message }) => seq![
            Action::Publish(Event::Websocket(WebsocketEvent::TerminalRead { message })),
        ],
        Event::Bridge(BridgeEvent::TerminalSend { message }) => if live {
            seq![
                Action::ToBridge(Event::Bridge(BridgeEvent::TerminalSend { message })),
                Action::Publish(Event::Websocket(WebsocketEvent::TerminalSend { message })),
            ]
        } else {
            seq![]
        },
        Event::Bridge(BridgeEvent::PrintStart { info }) => if live {
            seq![Action::ToBridge(Event::Bridge(BridgeEvent::PrintStart { info }))]
        } else {
            seq![]
        },
        Event::Bridge(BridgeEvent::PrintEnd) => seq![
            Action::ToBridge(Event::Bridge(BridgeEvent::PrintEnd)),
        ],
        Event::Bridge(BridgeEvent::StateUpdate { state, description }) => if !live {
            seq![]
        } else {
            let mirror = Action::Publish(
                Event::Websocket(WebsocketEvent::StateUpdate { state, description }),
            );
            if ends_session(state) {
                seq![Action::ToBridge(Event::Kill), mirror]
            } else {
                seq![
                    Action::ToBridge(Event::Bridge(BridgeEvent::StateUpdate { state, description })),
                    mirror,
                ]
            }
        },
        Event::Websocket(ws) => seq![Action::ToWebsocket(Event::Websocket(ws))],
        Event::Kill => seq![],
    }
}

/// The connection manager: the single owner of the belief whether a
/// device-bridge worker is running.
pub struct Router {
    bridge_live: bool,
}

impl Router {
    /// Whether a device-bridge session is believed live.
    pub closed spec fn live(&self) -> bool {
        self.bridge_live
    }

    /// A router with no live session.
    pub fn new() -> (r: Router)
        ensures
            !r.live(),
    {
        Router { bridge_live: false }
    }

    /// Whether a device-bridge session is believed live.
    pub fn has_session(&self) -> (r: bool)
        ensures
            r == self.live(),
    {
        self.bridge_live
    }

    /// Routes one event taken from the distribution channel: returns the
    /// actions to perform in order, or the violation the event amounts to,
    /// in which case the session state is left as it was.
    pub fn dispatch(&mut self, event: Event) -> (r: Result<Vec<Action>, Violation>)
        ensures
            match violation_of(old(self).live(), event) {
                Some(v) => r == Err::<Vec<Action>, Violation>(v) && final(self).live() == old(self).live(),
                None => r is Ok && r->Ok_0@ == actions_of(old(self).live(), event)
                    && final(self).live() == live_after(old(self).live(), event),
            },
    {
        let ghost e = event;
        let live = self.bridge_live;
        match event {
            Event::Bridge(BridgeEvent::ConnectionCreate { address, port }) => {
                if live {
                    return Err(Violation::CreateWhileLive);
                }
                self.bridge_live = true;
                let out = vec![Action::SpawnBridge { address, port }];
                assert(out@ =~= actions_of(live, e));
                Ok(out)
            },
            Event::Bridge(BridgeEvent::ConnectionCreateError { error }) => {
                if !live {
                    return Err(Violation::ErrorWithoutSession);
                }
                self.bridge_live = false;
                let update = WebsocketEvent::StateUpdate {
                    state: ConnectionState::Errored,
                    description: StateDescription::Error { message: error },
                };
                let out = vec![Action::Publish(Event::Websocket(update)), Action::AbortBridge];
                assert(out@ =~= actions_of(live, e));
                Ok(out)
            },
            Event::Bridge(BridgeEvent::TerminalRead { message }) => {
                let read = WebsocketEvent::TerminalRead { message };
                let out = vec![Action::Publish(Event::Websocket(read))];
                assert(out@ =~= actions_of(live, e));
                Ok(out)
            },
            Event::Bridge(BridgeEvent::TerminalSend { message }) => {
                if !live {
                    let out: Vec<Action> = Vec::new();
                    assert(out@ =~= actions_of(live, e));
                    return Ok(out);
                }
                let echo = message.clone();
                let out = vec![
                    Action::ToBridge(Event::Bridge(BridgeEvent::TerminalSend { message })),
                    Action::Publish(Event::Websocket(WebsocketEvent::TerminalSend { message: echo })),
                ];
                assert(out@ =~= actions_of(live, e));
                Ok(out)
            },
            Event::Bridge(BridgeEvent::PrintStart { info }) => {
                if !live {
                    let out: Vec<Action> = Vec::new();
                    assert(out@ =~= actions_of(live, e));
                    return Ok(out);
                }
                let out = vec![Action::ToBridge(Event::Bridge(BridgeEvent::PrintStart { info }))];
                assert(out@ =~= actions_of(live, e));
                Ok(out)
            },
            Event::Bridge(BridgeEvent::PrintEnd) => {
                let out = vec![Action::ToBridge(Event::Bridge(BridgeEvent::PrintEnd))];
                assert(out@ =~= actions_of(live, e));
                Ok(out)
            },
            Event::Bridge(BridgeEvent::StateUpdate { state, description }) => {
                if !live {
                    let out: Vec<Action> = Vec::new();
                    assert(out@ =~= actions_of(live, e));
                    return Ok(out);
                }
                let to_bridge = if state.is_session_ending() {
                    self.bridge_live = false;
                    Action::ToBridge(Event::Kill)
                } else {
                    let echo = BridgeEvent::StateUpdate { state, description: description.duplicate() };
                    Action::ToBridge(Event::Bridge(echo))
                };
                let mirror = WebsocketEvent::StateUpdate { state, description };
                let out = vec![to_bridge, Action::Publish(Event::Websocket(mirror))];
                assert(out@ =~= actions_of(live, e));
                Ok(out)
            },
            Event::Websocket(ws) => {
                let out = vec![Action::ToWebsocket(Event::Websocket(ws))];
                assert(out@ =~= actions_of(live, e));
                Ok(out)
            },
            Event::Kill => {
                let out: Vec<Action> = Vec::new();
                assert(out@ =~= actions_of(live, e));
                Ok(out)
            },
        }
    }
}

} // verus!
