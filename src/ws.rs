//! The page-reload WebSocket protocol.
use vstd::prelude::*;

verus! {

/// The path of the native reload endpoint.
pub fn thaw_cli_ws_path() -> (r: &'static str)
    ensures
        r@ == "/__thaw_cli__"@,
{
    "/__thaw_cli__"
}

/// The path of the cargo-leptos-compatible reload endpoint.
pub fn live_reload_path() -> (r: &'static str)
    ensures
        r@ == "/live_reload"@,
{
    "/live_reload"
}

/// The subprotocol of a liveness probe, which gets no frames.
pub fn ping_protocol() -> (r: &'static str)
    ensures
        r@ == "thaw-cli-ping"@,
{
    "thaw-cli-ping"
}

/// What the server tells a browser.
#[derive(Debug, Clone, Copy, PartialEq, Eq, Structural)]
pub enum WsMessage {
    Connected,
    RefreshPage,
}

/// A WebSocket frame as sent.
#[derive(Debug)]
pub enum WsFrame {
    /// A ping with an empty payload.
    Ping,
    Text(String),
}

pub open spec fn frame_is(f: WsFrame, m: WsMessage, cargo_leptos: bool) -> bool {
    if cargo_leptos {
        match m {
            WsMessage::Connected => f is Ping,
            WsMessage::RefreshPage => f matches WsFrame::Text(t) && t@ == "{\"all\":\"reload\"}"@,
        }
    } else {
        match m {
            WsMessage::Connected => f matches WsFrame::Text(t) && t@ == "{\"type\":\"Connected\"}"@,
            WsMessage::RefreshPage => f matches WsFrame::Text(t) && t@
                == "{\"type\":\"RefreshPage\"}"@,
        }
    }
}

impl WsMessage {
    /// The frame for the message: JSON tagged by `type` for native clients;
    /// an empty ping and `{"all":"reload"}` for cargo-leptos clients.
    pub fn into_frame(self, cargo_leptos: bool) -> (r: WsFrame)
        ensures
            frame_is(r, self, cargo_leptos),
    {
        if cargo_leptos {
            match self {
                WsMessage::Connected => WsFrame::Ping,
                WsMessage::RefreshPage => WsFrame::Text("{\"all\":\"reload\"}".to_owned()),
            }
        } else {
            match self {
                WsMessage::Connected => WsFrame::Text("{\"type\":\"Connected\"}".to_owned()),
                WsMessage::RefreshPage => WsFrame::Text("{\"type\":\"RefreshPage\"}".to_owned()),
            }
        }
    }
}

/// Whether the negotiated subprotocol marks a liveness probe.
pub fn is_ping_probe(protocol: Option<&str>) -> (r: bool)
    ensures
        r == (protocol matches Some(p) && p@ == "thaw-cli-ping"@),
{
    match protocol {
        Some(p) => p.to_owned() == "thaw-cli-ping".to_owned(),
        None => false,
    }
}

/// The frames a connection gets when `reloads` reload signals reach it:
/// nothing for a liveness probe; else `Connected`, then one refresh each.
pub fn session_frames(protocol: Option<&str>, cargo_leptos: bool, reloads: usize) -> (r: Vec<
    WsFrame,
>)
    ensures
        (protocol matches Some(p) && p@ == "thaw-cli-ping"@) ==> r@.len() == 0,
        !(protocol matches Some(p) && p@ == "thaw-cli-ping"@) ==> {
            &&& r@.len() == reloads + 1
            &&& frame_is(r@[0], WsMessage::Connected, cargo_leptos)
            &&& forall|i: int|
                1 <= i <= reloads ==> frame_is(#[trigger] r@[i], WsMessage::RefreshPage, cargo_leptos)
        },
{
    let mut out: Vec<WsFrame> = Vec::new();
    if is_ping_probe(protocol) {
        return out;
    }
    out.push(WsMessage::Connected.into_frame(cargo_leptos));
    let mut i: usize = 0;
    while i < reloads
        invariant
            i <= reloads,
            out@.len() == i + 1,
            frame_is(out@[0], WsMessage::Connected, cargo_leptos),
            forall|k: int|
                1 <= k <= i ==> frame_is(#[trigger] out@[k], WsMessage::RefreshPage, cargo_leptos),
        decreases reloads - i,
    {
        out.push(WsMessage::RefreshPage.into_frame(cargo_leptos));
        i = i + 1;
    }
    out
}

} // verus!
