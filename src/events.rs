use vstd::prelude::*;

verus! {

/// Health of the device connection, as reported by the bridge worker.
#[derive(Clone, Copy, Debug, PartialEq, Eq, Structural)]
pub enum ConnectionState {
    Disconnected,
    Connecting,
    Connected,
    Printing,
    Errored,
}

/// True for the states that end the current device session.
pub open spec fn ends_session(state: ConnectionState) -> bool {
    state == ConnectionState::Disconnected || state == ConnectionState::Errored
}

impl ConnectionState {
    /// Whether receiving this state ends the live device session.
    pub fn is_session_ending(&self) -> (r: bool)
        ensures
            r == ends_session(*self),
    {
        match self {
            ConnectionState::Disconnected => true,
            ConnectionState::Errored => true,
            _ => false,
        }
    }
}

/// Human-readable context for a state transition.
#[derive(Clone, Debug, PartialEq, Eq)]
pub enum StateDescription {
    Error { message: String },
    Info { message: String },
    Empty,
}

impl StateDescription {
    /// A copy of this description.
    pub fn duplicate(&self) -> (r: StateDescription)
        ensures
            r == *self,
    {
        match self {
            StateDescription::Error { message } => StateDescription::Error { message: message.clone() },
            StateDescription::Info { message } => StateDescription::Info { message: message.clone() },
            StateDescription::Empty => StateDescription::Empty,
        }
    }
}

/// Description of a print job; the router hands it through untouched.
#[derive(Clone, Debug, PartialEq, Eq)]
pub struct PrintInfo {
    pub name: String,
    pub content: String,
}

/// Events that come from, or are meant for, the device-bridge worker.
#[derive(Clone, Debug, PartialEq, Eq)]
pub enum BridgeEvent {
    ConnectionCreate { address: String, port: u32 },
    ConnectionCreateError { error: String },
    TerminalRead { message: String },
    TerminalSend { message: String },
    PrintStart { info: PrintInfo },
    PrintEnd,
    StateUpdate { state: ConnectionState, description: StateDescription },
}

/// The outward-facing events, exchanged with remote API clients.
#[derive(Clone, Debug, PartialEq, Eq)]
pub enum WebsocketEvent {
    StateUpdate { state: ConnectionState, description: StateDescription },
    TerminalRead { message: String },
    TerminalSend { message: String },
}

/// One event on any of the three channels.
#[derive(Clone, Debug, PartialEq, Eq)]
pub enum Event {
    Bridge(BridgeEvent),
    Websocket(WebsocketEvent),
    /// Tells the worker that receives it to end its session now.
    Kill,
}

} // verus!
