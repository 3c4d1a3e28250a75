//! What a widget keeps of its websocket, and how the messages about the
//! websocket change it.

use vstd::prelude::*;
use wasm_bindgen::JsValue;

verus! {

/// A message about a websocket.
pub enum WsMsg<WS, WSCMD, WSCMDRESP> {
    /// The connection stands.
    Connected(WS),
    /// The connection failed, with the reason.
    Error(String),
    /// A command is to be sent.
    Cmd(WSCMD),
    /// A command was answered, or it failed with a JavaScript error.
    CmdResponse(Result<WSCMDRESP, JsValue>),
}

/// The websocket as a widget knows it: connected, or absent with the reason.
#[derive(Clone, Debug)]
pub enum WsState<WS> {
    Present(WS),
    Absent(String),
}

/// The websocket after `msg`: a new connection or a failure replaces what
/// was known, and anything else leaves it as it was.
pub open spec fn updated<WS, WSCMD, WSCMDRESP>(
    ws: WsState<WS>,
    msg: WsMsg<WS, WSCMD, WSCMDRESP>,
) -> WsState<WS> {
    match msg {
        WsMsg::Connected(connection) => WsState::Present(connection),
        WsMsg::Error(reason) => WsState::Absent(reason),
        _ => ws,
    }
}

/// What the widget does about `msg`: whether it renders again, whether the
/// websocket became present, and the command that is left for the caller to
/// send.
pub open spec fn reaction<WS, WSCMD, WSCMDRESP>(msg: WsMsg<WS, WSCMD, WSCMDRESP>) -> (
    bool,
    bool,
    Option<WSCMD>,
) {
    match msg {
        WsMsg::Connected(_) => (true, true, None),
        WsMsg::Error(_) => (true, false, None),
        WsMsg::Cmd(cmd) => (false, false, Some(cmd)),
        WsMsg::CmdResponse(_) => (false, false, None),
    }
}

/// Takes a message about the websocket `ws_ref`. Returns whether to render
/// again, whether the websocket became present, and the command to send, if
/// the message was one. Sending is left to the caller, who knows the
/// websocket's kind.
pub fn handle_update<WS, WSCMD, WSCMDRESP>(
    ws_ref: &mut WsState<WS>,
    msg: WsMsg<WS, WSCMD, WSCMDRESP>,
) -> (handled: (bool, bool, Option<WSCMD>))
    ensures
        *final(ws_ref) == updated(*old(ws_ref), msg),
        handled == reaction(msg),
{
    match msg {
        WsMsg::Connected(ws) => {
            *ws_ref = WsState::Present(ws);
            (true, true, None)
        },
        WsMsg::Error(err) => {
            *ws_ref = WsState::Absent(err);
            (true, false, None)
        },
        WsMsg::Cmd(cmd) => (false, false, Some(cmd)),
        WsMsg::CmdResponse(_) => (false, false, None),
    }
}

/// Two values that travel as a JavaScript array of two.
pub struct Pair<A, B>(pub A, pub B);

/// Three values that travel as a JavaScript array of three.
pub struct Triple<A, B, C>(pub A, pub B, pub C);

impl<A, B> Pair<A, B> {
    /// The two values as a tuple.
    pub fn into_tuple(self) -> (tuple: (A, B))
        ensures
            tuple == (self.0, self.1),
    {
        let Pair(a, b) = self;
        (a, b)
    }
}

impl<A, B, C> Triple<A, B, C> {
    /// The three values as a tuple.
    pub fn into_tuple(self) -> (tuple: (A, B, C))
        ensures
            tuple == (self.0, self.1, self.2),
    {
        let Triple(a, b, c) = self;
        (a, b, c)
    }
}

} // verus!
