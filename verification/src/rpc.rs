//! RPC messages between the node and its clients: failure codes, failures,
//! progress reports and channel creation requests.
use vstd::prelude::*;
use crate::service::{ClientId, NodeAddr, ServiceId, ServiceBus};

verus! {

/// Failure codes reported to clients.
#[derive(Copy, Clone, Ord, PartialOrd, Eq, PartialEq, Structural, Hash, Debug)]
pub enum FailureCode {
    /// Catch-all
    Unknown,
    /// Encoding
    Encoding,
    /// Launching service
    Launch,
    /// Channel error
    Channel,
    /// LNPD-related error
    Lnpd,
    /// Error coming from other ESB interface reported to a different sservice
    Nested,
}

/// Numeric value of each failure code.
pub open spec fn failure_code_value(c: FailureCode) -> u16 {
    match c {
        FailureCode::Unknown => 0xFFF,
        FailureCode::Encoding => 0x02,
        FailureCode::Launch => 0x03,
        FailureCode::Channel => 0x020,
        FailureCode::Lnpd => 0x010,
        FailureCode::Nested => 0xFFE,
    }
}

/// Name under which a failure code is printed.
pub open spec fn failure_code_name(c: FailureCode) -> Seq<char> {
    match c {
        FailureCode::Unknown => "Unknown"@,
        FailureCode::Encoding => "Encoding"@,
        FailureCode::Launch => "Launch"@,
        FailureCode::Channel => "Channel"@,
        FailureCode::Lnpd => "Lnpd"@,
        FailureCode::Nested => "Nested"@,
    }
}

impl FailureCode {
    /// Numeric value of the code.
    pub fn to_u16(self) -> (r: u16)
        ensures
            r == failure_code_value(self),
    {
        match self {
            FailureCode::Unknown => 0xFFF,
            FailureCode::Encoding => 0x02,
            FailureCode::Launch => 0x03,
            FailureCode::Channel => 0x020,
            FailureCode::Lnpd => 0x010,
            FailureCode::Nested => 0xFFE,
        }
    }

    /// Failure code for a number: the code with that number, `Unknown` for a
    /// number of no code.
    pub fn from_u16(value: u16) -> (r: FailureCode)
        ensures
            r == failure_code_from(value),
    {
        match value {
            0x02 => FailureCode::Encoding,
            0x03 => FailureCode::Launch,
            0x020 => FailureCode::Channel,
            0x010 => FailureCode::Lnpd,
            0xFFE => FailureCode::Nested,
            _ => FailureCode::Unknown,
        }
    }

    /// Name of the code.
    pub fn to_display_string(&self) -> (r: String)
        ensures
            r@ == failure_code_name(*self),
    {
        match self {
            FailureCode::Unknown => String::from_str("Unknown"),
            FailureCode::Encoding => String::from_str("Encoding"),
            FailureCode::Launch => String::from_str("Launch"),
            FailureCode::Channel => String::from_str("Channel"),
            FailureCode::Lnpd => String::from_str("Lnpd"),
            FailureCode::Nested => String::from_str("Nested"),
        }
    }
}

/// The failure code read back from a number: the code with that number,
/// `Unknown` as the catch-all.
pub open spec fn failure_code_from(value: u16) -> FailureCode {
    if value == 0x02 {
        FailureCode::Encoding
    } else if value == 0x03 {
        FailureCode::Launch
    } else if value == 0x020 {
        FailureCode::Channel
    } else if value == 0x010 {
        FailureCode::Lnpd
    } else if value == 0xFFE {
        FailureCode::Nested
    } else {
        FailureCode::Unknown
    }
}

/// Distinct failure codes have distinct numbers, every code reads back from
/// its number, and a number of no code reads back as `Unknown`.
pub proof fn law_failure_code_number_roundtrip(c: FailureCode, d: FailureCode, v: u16)
    ensures
        failure_code_value(c) == failure_code_value(d) ==> c == d,
        failure_code_from(failure_code_value(c)) == c,
        (forall|e: FailureCode| failure_code_value(e) != v) ==> failure_code_from(v) == FailureCode::Unknown,
{
    if forall|e: FailureCode| failure_code_value(e) != v {
        assert(failure_code_value(FailureCode::Encoding) != v);
        assert(failure_code_value(FailureCode::Launch) != v);
        assert(failure_code_value(FailureCode::Channel) != v);
        assert(failure_code_value(FailureCode::Lnpd) != v);
        assert(failure_code_value(FailureCode::Nested) != v);
    }
}

/// Information about server-side failure returned through RPC API
#[derive(Clone, PartialEq, Eq, PartialOrd, Ord, Hash, Debug)]
pub struct Failure {
    /// Failure code
    pub code: FailureCode,
    /// Detailed information about the failure
    pub info: String,
}

impl Failure {
    /// A failure reported by another daemon over the message bus.
    pub fn nested(info: String) -> (r: Failure)
        ensures
            r.code == FailureCode::Nested,
            r.info == info,
    {
        Failure { code: FailureCode::Nested, info }
    }

    /// The default text form: the information alone.
    pub fn to_display_string(&self) -> (r: String)
        ensures
            r@ == self.info@,
    {
        self.info.clone()
    }

    /// The alternate text form, `Server returned failure #{code}: {info}`.
    pub fn to_alt_display_string(&self) -> (r: String)
        ensures
            r@ == "Server returned failure #"@ + failure_code_name(self.code) + ": "@ + self.info@,
    {
        let mut out = String::from_str("Server returned failure #");
        let c = self.code.to_display_string();
        out.append(c.as_str());
        out.append(": ");
        out.append(self.info.as_str());
        out
    }

    /// Clones the failure.
    pub fn duplicate(&self) -> (r: Failure)
        ensures
            r == *self,
    {
        Failure { code: self.code, info: self.info.clone() }
    }
}

/// Optional details accompanying a success report.
#[derive(Clone, PartialEq, Eq, Debug, Default)]
pub struct OptionDetails(pub Option<String>);

impl OptionDetails {
    /// No details.
    pub fn new() -> (r: OptionDetails)
        ensures
            r.0 is None,
    {
        OptionDetails(None)
    }

    /// The given details.
    pub fn with(details: String) -> (r: OptionDetails)
        ensures
            r.0 == Some(details),
    {
        OptionDetails(Some(details))
    }
}

/// Channel types as defined in BOLT-2.
#[derive(Copy, Clone, PartialEq, Eq, Structural, Hash, Debug)]
pub enum ChannelType {
    Basic,
    StaticRemotekey,
    Anchored,
    AnchoredZeroFee,
}

/// Channel parameters that both peers share.
#[derive(Copy, Clone, PartialEq, Eq, Structural, Hash, Debug)]
pub struct CommonParams {
    /// Number of confirmations required before the channel is operational
    pub minimum_depth: u32,
    /// Fee rate in satoshi per 1000-weight for commitment and HTLC transactions
    pub feerate_per_kw: u32,
    /// Whether the channel is announced to the network
    pub announce_channel: bool,
    /// Channel type
    pub channel_type: ChannelType,
}

/// Channel parameters set by one of the peers.
#[derive(Copy, Clone, PartialEq, Eq, Structural, Hash, Debug)]
pub struct PeerParams {
    pub dust_limit_satoshis: u64,
    pub to_self_delay: u16,
    pub htlc_minimum_msat: u64,
    pub max_htlc_value_in_flight_msat: u64,
    pub max_accepted_htlcs: u16,
    pub channel_reserve_satoshis: u64,
}

/// Request to create channel originating from a client
#[derive(Clone, PartialEq, Eq, Debug)]
pub struct CreateChannel {
    /// Node to open a channel with
    pub remote_peer: NodeAddr,
    /// Client identifier to report about the progress
    pub report_to: Option<ClientId>,
    /// Amount of satoshis for channel funding
    pub funding_sat: u64,
    /// Amount of millisatoshis to pay to the remote peer at the channel opening
    pub push_msat: u64,
    /// Initial fee rate in satoshi per 1000-weight
    pub fee_rate: Option<u32>,
    /// Should the channel be announced to the lightning network
    pub announce_channel: Option<bool>,
    /// Channel type as defined in BOLT-2.
    pub channel_type: Option<ChannelType>,
    /// The threshold below which outputs on transactions broadcast by sender will be omitted.
    pub dust_limit: Option<u64>,
    /// The number of blocks which the counterparty will have to wait to claim on-chain funds
    pub to_self_delay: Option<u16>,
    /// The maximum number of the received HTLCs.
    pub htlc_max_count: Option<u16>,
    /// Indicates the smallest value of an HTLC this node will accept, in milli-satoshi.
    pub htlc_min_value: Option<u64>,
    /// The maximum inbound HTLC value in flight towards this node, in milli-satoshi
    pub htlc_max_total_value: Option<u64>,
    /// The minimum value unencumbered by HTLCs for the counterparty to keep in the channel
    pub channel_reserve: Option<u64>,
}

/// A value overridden by an optional one.
pub open spec fn overridden<T>(value: T, custom: Option<T>) -> T {
    match custom {
        Some(v) => v,
        None => value,
    }
}

/// Common parameters after applying the customisations of a request.
pub open spec fn applied_common(r: CreateChannel, c: CommonParams) -> CommonParams {
    CommonParams {
        minimum_depth: c.minimum_depth,
        feerate_per_kw: overridden(c.feerate_per_kw, r.fee_rate),
        announce_channel: overridden(c.announce_channel, r.announce_channel),
        channel_type: overridden(c.channel_type, r.channel_type),
    }
}

/// Local peer parameters after applying the customisations of a request.
pub open spec fn applied_local(r: CreateChannel, p: PeerParams) -> PeerParams {
    PeerParams {
        dust_limit_satoshis: overridden(p.dust_limit_satoshis, r.dust_limit),
        to_self_delay: overridden(p.to_self_delay, r.to_self_delay),
        htlc_minimum_msat: overridden(p.htlc_minimum_msat, r.htlc_min_value),
        max_htlc_value_in_flight_msat: overridden(p.max_htlc_value_in_flight_msat, r.htlc_max_total_value),
        max_accepted_htlcs: overridden(p.max_accepted_htlcs, r.htlc_max_count),
        channel_reserve_satoshis: overridden(p.channel_reserve_satoshis, r.channel_reserve),
    }
}

/// `result` is the custom value where there is one, the default where not.
pub open spec fn set_or_kept<T>(result: T, default: T, custom: Option<T>) -> bool {
    &&& custom matches Some(v) ==> result == v
    &&& custom is None ==> result == default
}

/// `c2` and `p2` are the defaults `c` and `p` with the customisations of the
/// request: its fee rate sets `feerate_per_kw`, its announcement flag
/// `announce_channel`, its channel type `channel_type`, its dust limit
/// `dust_limit_satoshis`, its delay `to_self_delay`, its HTLC count
/// `max_accepted_htlcs`, its HTLC minimum `htlc_minimum_msat`, its HTLC total
/// `max_htlc_value_in_flight_msat` and its reserve
/// `channel_reserve_satoshis`; every parameter it does not give, and the
/// minimum depth, stay.
pub open spec fn customised(r: CreateChannel, c: CommonParams, p: PeerParams, c2: CommonParams, p2: PeerParams) -> bool {
    &&& c2.minimum_depth == c.minimum_depth
    &&& set_or_kept(c2.feerate_per_kw, c.feerate_per_kw, r.fee_rate)
    &&& set_or_kept(c2.announce_channel, c.announce_channel, r.announce_channel)
    &&& set_or_kept(c2.channel_type, c.channel_type, r.channel_type)
    &&& set_or_kept(p2.dust_limit_satoshis, p.dust_limit_satoshis, r.dust_limit)
    &&& set_or_kept(p2.to_self_delay, p.to_self_delay, r.to_self_delay)
    &&& set_or_kept(p2.max_accepted_htlcs, p.max_accepted_htlcs, r.htlc_max_count)
    &&& set_or_kept(p2.htlc_minimum_msat, p.htlc_minimum_msat, r.htlc_min_value)
    &&& set_or_kept(p2.max_htlc_value_in_flight_msat, p.max_htlc_value_in_flight_msat, r.htlc_max_total_value)
    &&& set_or_kept(p2.channel_reserve_satoshis, p.channel_reserve_satoshis, r.channel_reserve)
}

/// Each customisation of a request lands on the parameter it names, and
/// only there.
pub proof fn law_apply_params_fields(r: CreateChannel, c: CommonParams, p: PeerParams)
    ensures
        customised(r, c, p, applied_common(r, c), applied_local(r, p)),
{
}

impl CreateChannel {
    /// Applies customized parameters from the request to a given parameter objects
    pub fn apply_params(&self, common: &mut CommonParams, local: &mut PeerParams)
        ensures
            *final(common) == applied_common(*self, *old(common)),
            *final(local) == applied_local(*self, *old(local)),
            customised(*self, *old(common), *old(local), *final(common), *final(local)),
    {
        if let Some(fee_rate) = self.fee_rate {
            common.feerate_per_kw = fee_rate;
        }
        if let Some(announce_channel) = self.announce_channel {
            common.announce_channel = announce_channel;
        }
        if let Some(channel_type) = self.channel_type {
            common.channel_type = channel_type;
        }
        if let Some(dust_limit) = self.dust_limit {
            local.dust_limit_satoshis = dust_limit;
        }
        if let Some(to_self_delay) = self.to_self_delay {
            local.to_self_delay = to_self_delay
        }
        if let Some(htlc_max_count) = self.htlc_max_count {
            local.max_accepted_htlcs = htlc_max_count
        }
        if let Some(htlc_min_value) = self.htlc_min_value {
            local.htlc_minimum_msat = htlc_min_value
        }
        if let Some(htlc_max_total_value) = self.htlc_max_total_value {
            local.max_htlc_value_in_flight_msat = htlc_max_total_value
        }
        if let Some(channel_reserve) = self.channel_reserve {
            local.channel_reserve_satoshis = channel_reserve
        }
    }
}

/// Applying the customisations of a request twice changes nothing more than
/// applying them once.
pub proof fn law_apply_params_idempotent(r: CreateChannel, c: CommonParams, p: PeerParams)
    ensures
        applied_common(r, applied_common(r, c)) == applied_common(r, c),
        applied_local(r, applied_local(r, p)) == applied_local(r, p),
{
}

/// A request without customisations leaves the parameters as they are.
pub proof fn law_apply_params_neutral(r: CreateChannel, c: CommonParams, p: PeerParams)
    requires
        r.fee_rate is None,
        r.announce_channel is None,
        r.channel_type is None,
        r.dust_limit is None,
        r.to_self_delay is None,
        r.htlc_max_count is None,
        r.htlc_min_value is None,
        r.htlc_max_total_value is None,
        r.channel_reserve is None,
    ensures
        applied_common(r, c) == c,
        applied_local(r, p) == p,
{
}

/// Peer-to-peer protocols the node speaks.
#[derive(Copy, Clone, PartialEq, Eq, Structural, Hash, Debug)]
pub enum Protocol {
    Bolt,
    Bifrost,
}

/// Address at which the node listens for peer connections: the protocol, the
/// IP address in text form and the port.
#[derive(Clone, PartialEq, Eq, Hash, Debug)]
pub struct ListenAddr {
    pub protocol: Protocol,
    pub ip_addr: String,
    pub port: u16,
}

/// Request to pay an invoice, given in its text form, through a channel.
#[derive(Clone, PartialEq, Eq, Debug)]
pub struct PayInvoice {
    pub invoice: String,
    pub channel_id: [u8; 32],
    pub amount_msat: Option<u64>,
}

/// RPC API messages between the node daemons and clients that carry plain
/// values.
#[derive(Clone, PartialEq, Eq, Debug)]
pub enum RpcMsg {
    GetInfo,
    ListPeers,
    ListChannels,
    ListFunds,
    /// Requests the node to listen for peer connections at an address.
    Listen(ListenAddr),
    /// Requests the node to connect to a remote peer.
    ConnectPeer(NodeAddr),
    PingPeer,
    /// Requests creation of a new outbound channel by a client.
    CreateChannel(CreateChannel),
    /// Requests the router to pay an invoice.
    PayInvoice(PayInvoice),
    Progress(String),
    Success(OptionDetails),
    Failure(Failure),
    /// Information about the node, by its printed form.
    NodeInfo(String),
    /// Information about a peer, by its printed form.
    PeerInfo(String),
    /// Information about a channel, by its printed form.
    ChannelInfo(String),
    /// The `scriptPubkey` of the output that funds a proposed channel.
    ChannelFunding(Vec<u8>),
}

impl RpcMsg {
    /// A success report without details.
    pub fn success() -> (r: RpcMsg)
        ensures
            r == RpcMsg::Success(OptionDetails(None)),
    {
        RpcMsg::Success(OptionDetails::new())
    }

    /// A progress report with the given text.
    pub fn from_str(s: &str) -> (r: RpcMsg)
        ensures
            r matches RpcMsg::Progress(p) && p@ == s@,
    {
        RpcMsg::Progress(s.to_owned())
    }
}

/// A message for a client, sent over the RPC bus by the node broker.
#[derive(Clone, PartialEq, Eq, Debug)]
pub struct ClientReport {
    pub bus: ServiceBus,
    pub source: ServiceId,
    pub destination: ServiceId,
    pub message: RpcMsg,
}

/// The report of `message` to client `client_id` from the node broker.
pub open spec fn report_to(client_id: ClientId, message: RpcMsg) -> ClientReport {
    ClientReport {
        bus: ServiceBus::Rpc,
        source: ServiceId::LnpBroker,
        destination: ServiceId::Client(client_id),
        message,
    }
}

/// Report on the progress of a workflow sent to a client.
pub fn report_progress(client_id: ClientId, msg: String) -> (r: ClientReport)
    ensures
        r == report_to(client_id, RpcMsg::Progress(msg)),
{
    ClientReport {
        bus: ServiceBus::Rpc,
        source: ServiceId::LnpBroker,
        destination: ServiceId::Client(client_id),
        message: RpcMsg::Progress(msg),
    }
}

/// Report on the successful completion of a workflow sent to a client.
pub fn report_success(client_id: ClientId, msg: OptionDetails) -> (r: ClientReport)
    ensures
        r == report_to(client_id, RpcMsg::Success(msg)),
{
    ClientReport {
        bus: ServiceBus::Rpc,
        source: ServiceId::LnpBroker,
        destination: ServiceId::Client(client_id),
        message: RpcMsg::Success(msg),
    }
}

/// Errors of the node that a client is told of as a failure.
pub trait ReportedFailure {
    /// The failure the client is told of.
    spec fn reported(&self) -> Failure;

    /// The failure the client is told of.
    fn to_failure(&self) -> (r: Failure)
        ensures
            r == self.reported(),
    ;
}

impl ReportedFailure for Failure {
    open spec fn reported(&self) -> Failure {
        *self
    }

    fn to_failure(&self) -> (r: Failure) {
        self.duplicate()
    }
}

/// Report of a failure sent to a client, and the error itself, which ends
/// what the node was doing.
pub fn report_failure<E: ReportedFailure>(client_id: ClientId, err: E) -> (r: (ClientReport, Result<(), E>))
    ensures
        r.0 == report_to(client_id, RpcMsg::Failure(err.reported())),
        r.1 == Err::<(), E>(err),
{
    let failure = err.to_failure();
    let report = ClientReport {
        bus: ServiceBus::Rpc,
        source: ServiceId::LnpBroker,
        destination: ServiceId::Client(client_id),
        message: RpcMsg::Failure(failure),
    };
    (report, Err(err))
}

/// Report of either progress or failure, depending on the outcome of an
/// operation, and the outcome without its text.
pub fn report_progress_or_failure<E: ReportedFailure>(client_id: ClientId, result: Result<String, E>) -> (r: (ClientReport, Result<(), E>))
    ensures
        match result {
            Ok(text) => r.0 == report_to(client_id, RpcMsg::Progress(text)) && r.1 == Ok::<(), E>(()),
            Err(e) => r.0 == report_to(client_id, RpcMsg::Failure(e.reported())) && r.1 == Err::<(), E>(e),
        },
{
    match result {
        Ok(text) => (report_progress(client_id, text), Ok(())),
        Err(e) => report_failure(client_id, e),
    }
}

/// Conversion of an operation outcome into a progress or failure message.
pub trait ToProgressOrFalure {
    fn to_progress_or_failure(&self) -> RpcMsg;
}

/// Conversion of an operation outcome into a success or failure message.
pub trait IntoSuccessOrFalure {
    fn into_success_or_failure(self) -> RpcMsg;
}

/// A daemon launch error, by its description.
#[derive(Clone, PartialEq, Eq, Debug)]
pub struct LaunchError(pub String);

impl ReportedFailure for LaunchError {
    /// A launch failure with the description.
    open spec fn reported(&self) -> Failure {
        Failure { code: FailureCode::Launch, info: self.0 }
    }

    fn to_failure(&self) -> (r: Failure) {
        Failure { code: FailureCode::Launch, info: self.0.clone() }
    }
}

impl ToProgressOrFalure for Result<String, LaunchError> {
    fn to_progress_or_failure(&self) -> (r: RpcMsg)
        ensures
            r == match *self {
                Ok(v) => RpcMsg::Progress(v),
                Err(e) => RpcMsg::Failure(Failure { code: FailureCode::Launch, info: e.0 }),
            },
    {
        match self {
            Ok(val) => RpcMsg::Progress(val.clone()),
            Err(err) => RpcMsg::Failure(Failure { code: FailureCode::Launch, info: err.0.clone() }),
        }
    }
}

impl IntoSuccessOrFalure for Result<String, LaunchError> {
    fn into_success_or_failure(self) -> (r: RpcMsg)
        ensures
            r == match self {
                Ok(v) => RpcMsg::Success(OptionDetails(Some(v))),
                Err(e) => RpcMsg::Failure(Failure { code: FailureCode::Launch, info: e.0 }),
            },
    {
        match self {
            Ok(val) => RpcMsg::Success(OptionDetails::with(val)),
            Err(err) => RpcMsg::Failure(Failure { code: FailureCode::Launch, info: err.0 }),
        }
    }
}

/// Failure description inside a reply of the older RPC API.
#[derive(Clone, PartialEq, Eq, Debug)]
pub struct ApiFailure {
    pub code: u16,
    pub info: String,
}

/// Replies of the older RPC API.
#[derive(Clone, PartialEq, Eq, Debug)]
pub enum Reply {
    Success,
    Failure(ApiFailure),
}

impl Reply {
    /// The reply to a request that failed with an error, given the text of the
    /// error: a failure with code zero.
    pub fn from_error_text(info: String) -> (r: Reply)
        ensures
            r == Reply::Failure(ApiFailure { code: 0, info }),
    {
        Reply::Failure(ApiFailure { code: 0, info })
    }
}

} // verus!
