//! Connection daemon logic: keeping a peer connection alive with pings and
//! answering the peer's pings, and routing the messages the daemon receives
//! on its buses.
use vstd::prelude::*;
use crate::hex::{random_byte, random_in};

verus! {

/// A BOLT `ping`: ignored noise and the size of the `pong` expected back.
#[derive(Clone, PartialEq, Eq, Debug)]
pub struct Ping {
    pub ignored: Vec<u8>,
    pub pong_size: u16,
}

/// Errors of the connection daemon.
#[derive(Copy, Clone, PartialEq, Eq, Structural, Debug, Hash)]
pub enum LinkError {
    /// the remote peer did not answer the previous ping
    NotResponding,
}

/// What a received `pong` turned out to be.
#[derive(Copy, Clone, PartialEq, Eq, Structural, Debug, Hash)]
pub enum PongCheck {
    /// no ping was awaiting a pong
    Unexpected,
    /// the pong size differs from the one the ping asked for
    SizeMismatch,
    /// the awaited pong
    Expected,
}

/// The liveness state of a peer connection: the pong size awaited, if a ping
/// is unanswered.
#[derive(Copy, Clone, PartialEq, Eq, Structural, Debug, Hash)]
pub struct PeerLink {
    pub awaited_pong: Option<u16>,
}

/// A new ping may be sent: no pong is awaited.
pub open spec fn ping_allowed(l: PeerLink) -> bool {
    l.awaited_pong is None
}

/// The link once a ping asking for `pong_size` bytes was sent.
pub open spec fn link_after_ping(l: PeerLink, pong_size: u16) -> PeerLink {
    PeerLink { awaited_pong: Some(pong_size) }
}

/// The link once a pong arrived.
pub open spec fn link_after_pong(l: PeerLink) -> PeerLink {
    PeerLink { awaited_pong: None }
}

/// Random noise of the given length.
fn noise(len: u16) -> (r: Vec<u8>)
    ensures
        r@.len() == len,
{
    let mut out: Vec<u8> = Vec::new();
    let mut i: u16 = 0;
    while i < len
        invariant
            i <= len,
            out@.len() == i,
        decreases len - i,
    {
        out.push(random_byte());
        i = i + 1;
    }
    out
}

impl PeerLink {
    /// A connection with no ping pending.
    pub fn new() -> (r: PeerLink)
        ensures
            r.awaited_pong is None,
    {
        PeerLink { awaited_pong: None }
    }

    /// The ping to send to the remote peer: noise of 4 to 31 bytes and a
    /// pong size of 4 to 31 bytes. While a previous ping is unanswered the
    /// peer is not responding.
    pub fn prepare_ping(&self) -> (r: Result<Ping, LinkError>)
        ensures
            !ping_allowed(*self) ==> r == Err::<Ping, LinkError>(LinkError::NotResponding),
            ping_allowed(*self) ==> (r matches Ok(p) && 4 <= p.ignored@.len() < 32 && 4 <= p.pong_size < 32),
    {
        if self.awaited_pong.is_some() {
            return Err(LinkError::NotResponding);
        }
        let len = random_in(4, 32);
        let ignored = noise(len);
        let pong_size = random_in(4, 32);
        Ok(Ping { ignored, pong_size })
    }

    /// Once the ping was sent: its pong is awaited.
    pub fn ping_sent(&mut self, pong_size: u16)
        ensures
            *final(self) == link_after_ping(*old(self), pong_size),
    {
        self.awaited_pong = Some(pong_size);
    }

    /// A pong of `len` bytes arrived: it is checked against the awaited one,
    /// and no pong is awaited any more.
    pub fn pong_received(&mut self, len: usize) -> (r: PongCheck)
        ensures
            *final(self) == link_after_pong(*old(self)),
            r == match old(self).awaited_pong {
                None => PongCheck::Unexpected,
                Some(size) => if size as int != len as int { PongCheck::SizeMismatch } else { PongCheck::Expected },
            },
    {
        let r = match self.awaited_pong {
            None => PongCheck::Unexpected,
            Some(size) => if size as usize != len { PongCheck::SizeMismatch } else { PongCheck::Expected },
        };
        self.awaited_pong = None;
        r
    }
}

/// The noise answering a ping that asked for a pong of `pong_size` bytes.
pub fn pong_reply(pong_size: u16) -> (r: Vec<u8>)
    ensures
        r@.len() == pong_size,
{
    noise(pong_size)
}

/// A connection pings at most once before an answer: once a ping is sent,
/// pinging again fails until a pong arrives, and any pong, expected or not,
/// makes pinging possible again.
pub proof fn law_one_ping_at_a_time(link: PeerLink, pong_size: u16)
    ensures
        !ping_allowed(link_after_ping(link, pong_size)),
        ping_allowed(link_after_pong(link)),
        ping_allowed(PeerLink { awaited_pong: None }),
{
}

/// Messages the connection daemon receives on its bridge with the peer
/// listener, by kind.
#[derive(Copy, Clone, PartialEq, Eq, Structural, Debug, Hash)]
pub enum BridgeMsg {
    /// the listener timed out: time to ping
    PingPeer,
    /// the peer pinged, asking for a pong of the given size
    PeerPing { pong_size: u16 },
    /// the peer answered with a pong of the given length
    PeerPong { len: usize },
    /// the peer proposed a channel
    PeerOpenChannel,
    /// any other peer message
    PeerOther,
    /// any other request
    Other,
}

/// What the connection daemon does with a bridge message.
#[derive(Copy, Clone, PartialEq, Eq, Structural, Debug, Hash)]
pub enum BridgeRoute {
    /// ping the peer
    Ping,
    /// answer with a pong of the given size
    Pong(u16),
    /// check the pong of the given length
    CheckPong(usize),
    /// forward the message to lnpd over the message bus
    ForwardToLnpd,
    /// log the message
    Log,
    /// the bridge does not support the request
    NotSupported,
}

/// What the connection daemon does with a bridge message.
pub fn bridge_route(m: BridgeMsg) -> (r: BridgeRoute)
    ensures
        r == match m {
            BridgeMsg::PingPeer => BridgeRoute::Ping,
            BridgeMsg::PeerPing { pong_size } => BridgeRoute::Pong(pong_size),
            BridgeMsg::PeerPong { len } => BridgeRoute::CheckPong(len),
            BridgeMsg::PeerOpenChannel => BridgeRoute::ForwardToLnpd,
            BridgeMsg::PeerOther => BridgeRoute::Log,
            BridgeMsg::Other => BridgeRoute::NotSupported,
        },
{
    match m {
        BridgeMsg::PingPeer => BridgeRoute::Ping,
        BridgeMsg::PeerPing { pong_size } => BridgeRoute::Pong(pong_size),
        BridgeMsg::PeerPong { len } => BridgeRoute::CheckPong(len),
        BridgeMsg::PeerOpenChannel => BridgeRoute::ForwardToLnpd,
        BridgeMsg::PeerOther => BridgeRoute::Log,
        BridgeMsg::Other => BridgeRoute::NotSupported,
    }
}


/// What the peer listener does with an error of the peer connection: a
/// timeout is the time to ping the peer; any other error halts the listener.
#[derive(Copy, Clone, PartialEq, Eq, Structural, Debug, Hash)]
pub enum ListenerAction {
    /// ask the runtime over the bridge to ping the peer
    PingPeer,
    /// halt with the error
    Halt,
}

/// What the peer listener does with an error of the peer connection.
pub fn on_listener_error(timed_out: bool) -> (r: ListenerAction)
    ensures
        r == if timed_out { ListenerAction::PingPeer } else { ListenerAction::Halt },
{
    if timed_out { ListenerAction::PingPeer } else { ListenerAction::Halt }
}

/// Requests the connection daemon receives on its message and control
/// buses, by kind.
#[derive(Copy, Clone, PartialEq, Eq, Structural, Debug, Hash)]
pub enum BusRequest {
    /// a peer message to forward to the remote peer
    PeerMessage,
    /// a request to ping the remote peer
    PingPeer,
    /// any other request
    Other,
}

/// What the connection daemon does with a request on one of its buses.
#[derive(Copy, Clone, PartialEq, Eq, Structural, Debug, Hash)]
pub enum BusAction {
    /// send the message to the remote peer
    Forward,
    /// ping the remote peer
    Ping,
    /// the bus does not support the request
    NotSupported,
}

/// The message bus only forwards peer messages to the remote peer.
pub fn msg_bus_action(r: BusRequest) -> (a: BusAction)
    ensures
        a == if r == BusRequest::PeerMessage { BusAction::Forward } else { BusAction::NotSupported },
{
    match r {
        BusRequest::PeerMessage => BusAction::Forward,
        _ => BusAction::NotSupported,
    }
}

/// The control bus only takes requests to ping the remote peer.
pub fn ctl_bus_action(r: BusRequest) -> (a: BusAction)
    ensures
        a == if r == BusRequest::PingPeer { BusAction::Ping } else { BusAction::NotSupported },
{
    match r {
        BusRequest::PingPeer => BusAction::Ping,
        _ => BusAction::NotSupported,
    }
}

} // verus!
