//! Identifiers of the daemons (services) of the node and of the buses that
//! connect them.
use vstd::prelude::*;
use vstd::string::StringSliceAdditionalSpecFns;
use crate::hex::{lower_hex, random_bytes32, to_hex};
use crate::text::{dec_chars, push_decimal};

verus! {

/// Identifier of a client connected to the node RPC interface.
pub type ClientId = u64;

/// Error type of hexadecimal decoding in the `amplify` crate.
#[verifier::external_type_specification]
#[verifier::external_body]
pub struct ExHexError(amplify::hex::Error);

/// What `String::from_utf8_lossy` makes of bytes: valid UTF-8 decoded as it
/// is, each invalid sequence replaced by U+FFFD.
pub uninterp spec fn lossy_utf8(bytes: Seq<u8>) -> Seq<char>;

/// Calls `String::from_utf8_lossy` and turns the result into an owned
/// `String`. The result is named `lossy_utf8` of the bytes; of valid UTF-8
/// it is the decoded text.
#[verifier::external_body]
pub(crate) fn utf8_lossy(bytes: &[u8]) -> (r: String)
    ensures
        r@ == lossy_utf8(bytes@),
        vstd::utf8::valid_utf8(bytes@) ==> r@ == vstd::utf8::decode_utf8(bytes@),
{
    String::from_utf8_lossy(bytes).into_owned()
}

/// Calls `std::str::from_utf8` and tells whether it succeeded, which it does
/// exactly when the bytes are well-formed UTF-8.
#[verifier::external_body]
pub(crate) fn utf8_valid(bytes: &[u8]) -> (r: bool)
    ensures
        r == vstd::utf8::valid_utf8(bytes@),
{
    std::str::from_utf8(bytes).is_ok()
}

/// Name of a service which is not one of the node daemons: 32 bytes.
#[derive(Clone, Copy, PartialEq, Eq, PartialOrd, Ord, Hash, Debug, Default)]
pub struct ServiceName(pub [u8; 32]);

/// The 32 bytes of a service name made of the given text bytes: the first 32
/// of them, padded with zero bytes.
pub open spec fn service_name_bytes(b: Seq<u8>) -> Seq<u8> {
    Seq::new(32, |i: int| if i < b.len() { b[i] } else { 0u8 })
}

/// `{first four bytes in hex}..{last four bytes in hex}`.
pub open spec fn short_hex(b: Seq<u8>) -> Seq<char> {
    lower_hex(b.take(4)) + seq!['.', '.'] + lower_hex(b.skip(b.len() - 4))
}

impl ServiceName {
    /// Makes a service name out of the bytes of a string, truncating it to 32
    /// bytes or padding it with zeros. It never fails.
    pub fn from_str(s: &str) -> (r: Result<ServiceName, amplify::hex::Error>)
        ensures
            r matches Ok(name) && name.0@ == service_name_bytes(s.spec_bytes()),
    {
        let b = s.as_bytes();
        let mut out = [0u8; 32];
        let mut i: usize = 0;
        while i < 32
            invariant
                i <= 32,
                b@ == s.spec_bytes(),
                forall|k: int| 0 <= k < i ==> out[k] == service_name_bytes(b@)[k],
                forall|k: int| i <= k < 32 ==> out[k] == 0u8,
            decreases 32 - i,
        {
            if i < b.len() {
                out[i] = b[i];
            }
            i = i + 1;
        }
        assert(out@ =~= service_name_bytes(b@));
        Ok(ServiceName(out))
    }

    /// The name as text: the 32 bytes read as UTF-8, invalid sequences
    /// replaced.
    pub fn to_display_string(&self) -> (r: String)
        ensures
            r@ == lossy_utf8(self.0@),
            vstd::utf8::valid_utf8(self.0@) ==> r@ == vstd::utf8::decode_utf8(self.0@),
    {
        utf8_lossy(&self.0)
    }

    /// The alternate text form: the first and the last four bytes in hex.
    pub fn to_alt_display_string(&self) -> (r: String)
        ensures
            r@ == short_hex(self.0@),
    {
        short_hex_string(&self.0)
    }
}

/// `{first four bytes in hex}..{last four bytes in hex}` of a 32-byte value.
pub fn short_hex_string(b: &[u8; 32]) -> (r: String)
    ensures
        r@ == short_hex(b@),
{
    let head = [b[0], b[1], b[2], b[3]];
    let tail = [b[28], b[29], b[30], b[31]];
    assert(head@ =~= b@.take(4));
    assert(tail@ =~= b@.skip(b@.len() - 4));
    let mut out = to_hex(&head);
    proof { reveal_strlit(".."); }
    out.append("..");
    let t = to_hex(&tail);
    out.append(t.as_str());
    out
}

/// Network address of a remote node: its 33-byte public key and its socket
/// address in text form.
#[derive(PartialEq, Eq, Debug, Hash)]
pub struct NodeAddr {
    pub node_id: [u8; 33],
    pub addr: String,
}

/// `{public key in hex}@{socket address}`.
pub open spec fn node_addr_text(n: NodeAddr) -> Seq<char> {
    lower_hex(n.node_id@) + seq!['@'] + n.addr@
}

impl Clone for NodeAddr {
    fn clone(&self) -> (r: Self)
        ensures
            r == *self,
    {
        NodeAddr { node_id: self.node_id, addr: self.addr.clone() }
    }
}

impl NodeAddr {
    /// `{public key in hex}@{socket address}`.
    pub fn to_display_string(&self) -> (r: String)
        ensures
            r@ == node_addr_text(*self),
    {
        let mut out = to_hex(&self.node_id);
        proof { reveal_strlit("@"); }
        out.append("@");
        out.append(self.addr.as_str());
        out
    }
}

/// Application running over Bifrost channels or messaging, by its protocol
/// number.
#[derive(Clone, Copy, PartialEq, Eq, Structural, Debug, Hash)]
pub struct BifrostApp(pub u16);

/// Identifiers of daemons participating in LNP Node.
#[derive(Clone, PartialEq, Eq, Debug, Hash)]
pub enum ServiceId {
    Loopback,
    LnpBroker,
    Watch,
    Router,
    PeerBolt(NodeAddr),
    PeerBifrost(NodeAddr),
    Channel([u8; 32]),
    Client(ClientId),
    Signer,
    MsgApp(BifrostApp),
    ChannelApp(BifrostApp),
    Other(ServiceName),
}

/// Text form of a service identifier.
pub open spec fn service_id_text(s: ServiceId) -> Seq<char> {
    match s {
        ServiceId::Loopback => "loopback"@,
        ServiceId::LnpBroker => "lnpd"@,
        ServiceId::Watch => "watchd"@,
        ServiceId::Router => "routed"@,
        ServiceId::PeerBolt(n) => "peerd<bolt, "@ + node_addr_text(n) + ">"@,
        ServiceId::PeerBifrost(n) => "peerd<biffrost, "@ + node_addr_text(n) + ">"@,
        ServiceId::Channel(c) => "channel<"@ + short_hex(c@) + ">"@,
        ServiceId::Client(id) => "client<"@ + dec_chars(id as nat) + ">"@,
        ServiceId::Signer => "signer"@,
        ServiceId::MsgApp(app) => "msgapp<"@ + dec_chars(app.0 as nat) + ">"@,
        ServiceId::ChannelApp(app) => "chapp<"@ + dec_chars(app.0 as nat) + ">"@,
        ServiceId::Other(name) => "other<"@ + lossy_utf8(name.0@) + ">"@,
    }
}

impl ServiceId {
    /// The service routing messages between the daemons.
    pub fn router() -> (r: ServiceId)
        ensures
            r == ServiceId::LnpBroker,
    {
        ServiceId::LnpBroker
    }

    /// A client identifier chosen at random.
    pub fn client() -> (r: ServiceId)
        ensures
            r is Client,
    {
        let b = random_bytes32();
        let id = (b[0] as u64) | ((b[1] as u64) << 8u64) | ((b[2] as u64) << 16u64) | ((b[3] as u64) << 24u64)
            | ((b[4] as u64) << 32u64) | ((b[5] as u64) << 40u64) | ((b[6] as u64) << 48u64) | ((b[7] as u64) << 56u64);
        ServiceId::Client(id)
    }

    /// The remote peer behind a BOLT peer daemon.
    pub fn to_remote_peer(&self) -> (r: Option<NodeAddr>)
        ensures
            match *self {
                ServiceId::PeerBolt(n) => r == Some(n),
                _ => r is None,
            },
    {
        match self {
            ServiceId::PeerBolt(node_addr) => Some(node_addr.clone()),
            _ => None,
        }
    }

    /// Text form of the identifier. The name of an `Other` service is read as
    /// UTF-8 with invalid sequences replaced; the contract covers names that
    /// are valid UTF-8.
    pub fn to_display_string(&self) -> (r: String)
        ensures
            r@ == service_id_text(*self),
    {
        let (prefix, suffix): (&str, &str) = match self {
            ServiceId::Loopback => {
                proof { reveal_strlit("loopback"); }
                return String::from_str("loopback");
            }
            ServiceId::LnpBroker => {
                proof { reveal_strlit("lnpd"); }
                return String::from_str("lnpd");
            }
            ServiceId::Watch => {
                proof { reveal_strlit("watchd"); }
                return String::from_str("watchd");
            }
            ServiceId::Router => {
                proof { reveal_strlit("routed"); }
                return String::from_str("routed");
            }
            ServiceId::Signer => {
                proof { reveal_strlit("signer"); }
                return String::from_str("signer");
            }
            ServiceId::PeerBolt(_) => ("peerd<bolt, ", ">"),
            ServiceId::PeerBifrost(_) => ("peerd<biffrost, ", ">"),
            ServiceId::Channel(_) => ("channel<", ">"),
            ServiceId::Client(_) => ("client<", ">"),
            ServiceId::MsgApp(_) => ("msgapp<", ">"),
            ServiceId::ChannelApp(_) => ("chapp<", ">"),
            ServiceId::Other(_) => ("other<", ">"),
        };
        let mut out = String::from_str(prefix);
        match self {
            ServiceId::PeerBolt(n) | ServiceId::PeerBifrost(n) => {
                let t = n.to_display_string();
                out.append(t.as_str());
            }
            ServiceId::Channel(c) => {
                let t = short_hex_string(c);
                out.append(t.as_str());
            }
            ServiceId::Client(id) => {
                push_decimal(&mut out, *id);
            }
            ServiceId::MsgApp(app) | ServiceId::ChannelApp(app) => {
                push_decimal(&mut out, app.0 as u64);
            }
            ServiceId::Other(name) => {
                let t = name.to_display_string();
                out.append(t.as_str());
            }
            _ => {}
        }
        out.append(suffix);
        proof {
            reveal_strlit(">");
            reveal_strlit("peerd<bolt, ");
            reveal_strlit("peerd<biffrost, ");
            reveal_strlit("channel<");
            reveal_strlit("client<");
            reveal_strlit("msgapp<");
            reveal_strlit("chapp<");
            reveal_strlit("other<");
        }
        out
    }
}

/// Service buses used for inter-daemon communication
#[derive(Clone, Copy, PartialEq, Eq, Structural, Hash, Debug)]
pub enum ServiceBus {
    /// RPC interface, from client to node
    Rpc,
    /// LN P2P message bus
    Msg,
    /// Control service bus
    Ctl,
    /// Bridge between listening and sending parts of the peer connection
    Bridge,
}

impl ServiceBus {
    /// Name of the bus.
    pub fn to_display_string(&self) -> (r: String)
        ensures
            r@ == match *self {
                ServiceBus::Rpc => "RPC"@,
                ServiceBus::Msg => "MSG"@,
                ServiceBus::Ctl => "CTL"@,
                ServiceBus::Bridge => "BRIDGE"@,
            },
    {
        match self {
            ServiceBus::Rpc => String::from_str("RPC"),
            ServiceBus::Msg => String::from_str("MSG"),
            ServiceBus::Ctl => String::from_str("CTL"),
            ServiceBus::Bridge => String::from_str("BRIDGE"),
        }
    }
}

} // verus!

verus! {

/// Identifiers of daemons of the older node layout.
#[derive(Clone, PartialEq, Eq, Debug, Hash)]
pub enum DaemonId {
    Lnpd,
    Gossip,
    Routing,
    /// a connection daemon, by the node endpoint it connects to
    Connection(String),
    /// a channel daemon, by the channel id
    Channel([u8; 32]),
    /// any other daemon, by its name
    Foreign(String),
}

/// Bytes of an ASCII text.
pub open spec fn ascii_bytes(s: Seq<char>) -> Seq<u8> {
    s.map_values(|c: char| c as u8)
}

/// The bytes by which a daemon is addressed on the bus.
pub open spec fn daemon_bytes(d: DaemonId) -> Seq<u8> {
    match d {
        DaemonId::Lnpd => ascii_bytes("lnpd"@),
        DaemonId::Gossip => ascii_bytes("gossipd"@),
        DaemonId::Routing => ascii_bytes("routed"@),
        DaemonId::Connection(e) => vstd::utf8::encode_utf8(e@),
        DaemonId::Channel(id) => id@,
        DaemonId::Foreign(n) => vstd::utf8::encode_utf8(n@),
    }
}

/// Kinds of daemons.
#[derive(Copy, Clone, PartialEq, Eq, Structural, Debug, Hash)]
pub enum DaemonKind {
    Lnpd,
    Gossip,
    Routing,
    Connection,
    Channel,
    Foreign,
}

/// Kind of each daemon.
pub open spec fn daemon_kind(d: DaemonId) -> DaemonKind {
    match d {
        DaemonId::Lnpd => DaemonKind::Lnpd,
        DaemonId::Gossip => DaemonKind::Gossip,
        DaemonId::Routing => DaemonKind::Routing,
        DaemonId::Connection(_) => DaemonKind::Connection,
        DaemonId::Channel(_) => DaemonKind::Channel,
        DaemonId::Foreign(_) => DaemonKind::Foreign,
    }
}

/// Kind of the daemon addressed by the given bytes: the known daemon names
/// first; then, when their text names a node endpoint, a connection daemon;
/// 32 bytes, a channel daemon; anything else, a foreign daemon.
pub open spec fn kind_of_bytes(v: Seq<u8>, endpoint_ok: bool) -> DaemonKind {
    if v == ascii_bytes("lnpd"@) {
        DaemonKind::Lnpd
    } else if v == ascii_bytes("gossipd"@) {
        DaemonKind::Gossip
    } else if v == ascii_bytes("routed"@) {
        DaemonKind::Routing
    } else if endpoint_ok {
        DaemonKind::Connection
    } else if v.len() == 32 {
        DaemonKind::Channel
    } else {
        DaemonKind::Foreign
    }
}

/// Whether two byte strings are equal.
fn same_bytes(a: &[u8], b: &[u8]) -> (r: bool)
    ensures
        r == (a@ == b@),
{
    if a.len() != b.len() {
        return false;
    }
    let mut i: usize = 0;
    while i < a.len()
        invariant
            i <= a.len(),
            a.len() == b.len(),
            forall|j: int| 0 <= j < i ==> a@[j] == b@[j],
        decreases a.len() - i,
    {
        if a[i] != b[i] {
            return false;
        }
        i = i + 1;
    }
    proof {
        assert(a@ =~= b@);
    }
    true
}

impl DaemonId {
    /// The bytes by which the daemon is addressed on the bus.
    pub fn to_bytes(&self) -> (r: Vec<u8>)
        ensures
            r@ == daemon_bytes(*self),
    {
        let lnpd: [u8; 4] = [108, 110, 112, 100];
        let gossipd: [u8; 7] = [103, 111, 115, 115, 105, 112, 100];
        let routed: [u8; 6] = [114, 111, 117, 116, 101, 100];
        proof {
            reveal_strlit("lnpd");
            reveal_strlit("gossipd");
            reveal_strlit("routed");
            assert(lnpd@ =~= ascii_bytes("lnpd"@));
            assert(gossipd@ =~= ascii_bytes("gossipd"@));
            assert(routed@ =~= ascii_bytes("routed"@));
        }
        let src: &[u8] = match self {
            DaemonId::Lnpd => lnpd.as_slice(),
            DaemonId::Gossip => gossipd.as_slice(),
            DaemonId::Routing => routed.as_slice(),
            DaemonId::Connection(e) => e.as_str().as_bytes(),
            DaemonId::Channel(id) => id.as_slice(),
            DaemonId::Foreign(n) => n.as_str().as_bytes(),
        };
        let mut out: Vec<u8> = Vec::new();
        let mut i: usize = 0;
        while i < src.len()
            invariant
                i <= src.len(),
                out@ == src@.take(i as int),
            decreases src.len() - i,
        {
            out.push(src[i]);
            i = i + 1;
            proof {
                assert(out@ =~= src@.take(i as int));
            }
        }
        proof {
            assert(src@.take(src.len() as int) =~= src@);
        }
        out
    }

    /// The daemon addressed by the given bytes, given whether their text
    /// (read as UTF-8 with invalid sequences replaced) parses as a node
    /// endpoint.
    pub fn from_bytes(v: &Vec<u8>, endpoint_ok: bool) -> (r: DaemonId)
        ensures
            daemon_kind(r) == kind_of_bytes(v@, endpoint_ok),
            r matches DaemonId::Channel(id) ==> id@ == v@,
            match r {
                DaemonId::Connection(s) => s@ == lossy_utf8(v@),
                DaemonId::Foreign(s) => s@ == lossy_utf8(v@),
                _ => true,
            },
            vstd::utf8::valid_utf8(v@) ==> match r {
                DaemonId::Connection(s) => s@ == vstd::utf8::decode_utf8(v@),
                DaemonId::Foreign(s) => s@ == vstd::utf8::decode_utf8(v@),
                _ => true,
            },
    {
        let lnpd: [u8; 4] = [108, 110, 112, 100];
        let gossipd: [u8; 7] = [103, 111, 115, 115, 105, 112, 100];
        let routed: [u8; 6] = [114, 111, 117, 116, 101, 100];
        proof {
            reveal_strlit("lnpd");
            reveal_strlit("gossipd");
            reveal_strlit("routed");
            assert(lnpd@ =~= ascii_bytes("lnpd"@));
            assert(gossipd@ =~= ascii_bytes("gossipd"@));
            assert(routed@ =~= ascii_bytes("routed"@));
        }
        if same_bytes(v.as_slice(), &lnpd) {
            DaemonId::Lnpd
        } else if same_bytes(v.as_slice(), &gossipd) {
            DaemonId::Gossip
        } else if same_bytes(v.as_slice(), &routed) {
            DaemonId::Routing
        } else {
            let s = utf8_lossy(v.as_slice());
            if endpoint_ok {
                DaemonId::Connection(s)
            } else if v.len() == 32 {
                let mut hash = [0u8; 32];
                let mut i: usize = 0;
                while i < 32
                    invariant
                        i <= 32,
                        v.len() == 32,
                        forall|k: int| 0 <= k < i ==> hash[k] == v@[k],
                    decreases 32 - i,
                {
                    hash[i] = v[i];
                    i = i + 1;
                }
                proof {
                    assert(hash@ =~= v@);
                }
                DaemonId::Channel(hash)
            } else {
                DaemonId::Foreign(s)
            }
        }
    }
}

/// Bytes that name one of the named daemons.
pub open spec fn is_daemon_name(b: Seq<u8>) -> bool {
    b == ascii_bytes("lnpd"@) || b == ascii_bytes("gossipd"@) || b == ascii_bytes("routed"@)
}

/// Whether reading back the bytes of a daemon can give that daemon: a
/// channel's bytes must not name an endpoint; a connection's text must name
/// one; a foreign name must name none, nor be 32 bytes long; the text of
/// neither may be a named daemon's name.
pub open spec fn readable_back(d: DaemonId, endpoint_ok: bool) -> bool {
    match d {
        DaemonId::Channel(_) => !endpoint_ok,
        DaemonId::Connection(_) => endpoint_ok && !is_daemon_name(daemon_bytes(d)),
        DaemonId::Foreign(_) => !endpoint_ok && daemon_bytes(d).len() != 32 && !is_daemon_name(daemon_bytes(d)),
        _ => true,
    }
}

/// The bytes of a daemon address a daemon of the same kind, and the text of
/// a connection or foreign daemon reads back as itself (so `from_bytes` gives
/// back the daemon), wherever reading back can give that daemon.
pub proof fn law_daemon_bytes_roundtrip(d: DaemonId, endpoint_ok: bool)
    requires
        readable_back(d, endpoint_ok),
    ensures
        kind_of_bytes(daemon_bytes(d), endpoint_ok) == daemon_kind(d),
        d matches DaemonId::Connection(s) ==> vstd::utf8::valid_utf8(daemon_bytes(d))
            && vstd::utf8::decode_utf8(daemon_bytes(d)) == s@,
        d matches DaemonId::Foreign(n) ==> vstd::utf8::valid_utf8(daemon_bytes(d))
            && vstd::utf8::decode_utf8(daemon_bytes(d)) == n@,
{
    reveal_strlit("lnpd");
    reveal_strlit("gossipd");
    reveal_strlit("routed");
    match d {
        DaemonId::Connection(s) => {
            vstd::utf8::encode_utf8_valid_utf8(s@);
            vstd::utf8::encode_utf8_decode_utf8(s@);
        }
        DaemonId::Foreign(n) => {
            vstd::utf8::encode_utf8_valid_utf8(n@);
            vstd::utf8::encode_utf8_decode_utf8(n@);
        }
        _ => {}
    }
    if d is Connection || d is Foreign {
    } else if d is Channel {
        let b = daemon_bytes(d);
        assert(b.len() == 32);
        assert(b != ascii_bytes("lnpd"@));
        assert(b != ascii_bytes("gossipd"@));
        assert(b != ascii_bytes("routed"@));
    } else {
        assert(ascii_bytes("gossipd"@) != ascii_bytes("lnpd"@)) by {
            assert(ascii_bytes("gossipd"@).len() != ascii_bytes("lnpd"@).len());
        }
        assert(ascii_bytes("routed"@) != ascii_bytes("lnpd"@)) by {
            assert(ascii_bytes("routed"@).len() != ascii_bytes("lnpd"@).len());
        }
        assert(ascii_bytes("routed"@) != ascii_bytes("gossipd"@)) by {
            assert(ascii_bytes("routed"@).len() != ascii_bytes("gossipd"@).len());
        }
    }
}

} // verus!
