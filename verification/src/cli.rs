//! The command-line client: what each command asks of which daemon, and how
//! the client follows the answer.
use vstd::prelude::*;
use crate::service::{ClientId, NodeAddr, ServiceId};
use crate::rpc::{ChannelType, CreateChannel, ListenAddr, PayInvoice, Protocol, RpcMsg};
use crate::config::Chain;
use crate::funding::{chain_network, network_of, OutPoint};
use crate::hex::lower_hex;
use crate::script::{address_text, funding_address, script_assembly, script_assembly_string, script_hex};

verus! {

/// What the subject of an `info` command was read as.
#[derive(Clone, PartialEq, Eq, Debug)]
pub enum InfoSubject {
    /// the address of a remote node
    Node(NodeAddr),
    /// a channel id
    Channel([u8; 32]),
    /// neither
    Unreadable,
}

/// Commands of the command-line client.
#[derive(Clone, PartialEq, Eq, Debug)]
pub enum Command {
    /// Bind to a socket and start listening for incoming LN peer connections
    Listen { ip_addr: String, port: u16, bolt: bool, bifrost: bool },
    /// Connect to the remote lightning network peer
    Connect { peer: NodeAddr },
    /// Ping remote peer
    Ping { peer: NodeAddr, bolt: bool, bifrost: bool },
    /// General information about the running node
    Info { subject: Option<InfoSubject>, bolt: bool, bifrost: bool },
    /// Lists all funds available for channel creation
    Funds,
    /// Lists existing peer connections
    Peers,
    /// Lists existing channels
    Channels,
    /// Opens a new channel with a remote peer
    Open {
        peer: NodeAddr,
        funding_sat: u64,
        push_msat: Option<u64>,
        fee_rate: Option<u32>,
        announce_channel: Option<bool>,
        channel_type: Option<ChannelType>,
        dust_limit: Option<u64>,
        to_self_delay: Option<u16>,
        htlc_max_count: Option<u16>,
        htlc_min_value: Option<u64>,
        htlc_max_total_value: Option<u64>,
        channel_reserve: Option<u64>,
    },
    /// Create an invoice
    Invoice { amount: u64, asset: String },
    /// Pay the invoice
    Pay { invoice: String, channel: [u8; 32], amount_msat: Option<u64> },
}

/// The line the client prints before running each command.
pub open spec fn action_text(c: Command) -> Seq<char> {
    match c {
        Command::Listen { .. } => "Binding to port"@,
        Command::Connect { .. } => "Connecting to remore peer"@,
        Command::Ping { .. } => "Pinging peer"@,
        Command::Info { .. } => "Getting info"@,
        Command::Funds => "Retrieving information about funds"@,
        Command::Peers => "Retrieving information about peers"@,
        Command::Channels => "Retrieving information about channels"@,
        Command::Open { .. } => "Opening channel"@,
        Command::Invoice { .. } => "Creating invoice"@,
        Command::Pay { .. } => "Paying invoice"@,
    }
}

/// How the client follows a request.
#[derive(Copy, Clone, PartialEq, Eq, Structural, Hash, Debug)]
pub enum FollowUp {
    /// print the node, peer or channel information returned
    PrintInfo,
    /// print the response, or report the failure
    ReportResponse,
    /// print the progress reports until success or failure
    ReportProgress,
    /// nothing
    Nothing,
}

/// A request of the client: the daemon, the message and how to follow it.
#[derive(Clone, PartialEq, Eq, Debug)]
pub struct CommandPlan {
    pub target: ServiceId,
    pub request: RpcMsg,
    pub follow_up: FollowUp,
}

/// Text of the error of an `info` command whose subject is unreadable.
pub open spec fn bad_subject_text() -> Seq<char> {
    "Subject parameter must be either remote node address or channel id represented by a hex string"@
}

/// Whether the client can run a command: invoices cannot be created yet,
/// and a command naming a peer protocol must name exactly one.
pub open spec fn runnable(c: Command) -> bool {
    match c {
        Command::Invoice { .. } => false,
        Command::Listen { bolt, bifrost, .. } => bolt != bifrost,
        Command::Ping { bolt, bifrost, .. } => bolt != bifrost,
        Command::Info { subject, bolt, bifrost } => (subject matches Some(InfoSubject::Node(_))) ==> bolt != bifrost,
        _ => true,
    }
}

/// A plan with the given parts.
pub open spec fn plan_of(target: ServiceId, request: RpcMsg, follow_up: FollowUp) -> Result<CommandPlan, String> {
    Ok(CommandPlan { target, request, follow_up })
}

impl Command {
    /// The line the client prints before running the command.
    pub fn action_string(&self) -> (r: String)
        ensures
            r@ == action_text(*self),
    {
        match self {
            Command::Listen { .. } => String::from_str("Binding to port"),
            Command::Connect { .. } => String::from_str("Connecting to remore peer"),
            Command::Ping { .. } => String::from_str("Pinging peer"),
            Command::Info { .. } => String::from_str("Getting info"),
            Command::Funds => String::from_str("Retrieving information about funds"),
            Command::Peers => String::from_str("Retrieving information about peers"),
            Command::Channels => String::from_str("Retrieving information about channels"),
            Command::Open { .. } => String::from_str("Opening channel"),
            Command::Invoice { .. } => String::from_str("Creating invoice"),
            Command::Pay { .. } => String::from_str("Paying invoice"),
        }
    }

    /// The request the command makes, from the client `client`, or the
    /// error text of an `info` command whose subject is unreadable. A
    /// `listen` command with the Bifrost flag listens over BOLT and the other
    /// way round.
    pub fn plan(self, client: ClientId) -> (r: Result<CommandPlan, String>)
        requires
            runnable(self),
        ensures
            match self {
                Command::Info { subject, bolt, bifrost } => match subject {
                    Some(InfoSubject::Node(n)) => r == plan_of(
                        if bolt { ServiceId::PeerBolt(n) } else { ServiceId::PeerBifrost(n) },
                        RpcMsg::GetInfo,
                        FollowUp::PrintInfo,
                    ),
                    Some(InfoSubject::Channel(c)) => r == plan_of(ServiceId::Channel(c), RpcMsg::GetInfo, FollowUp::PrintInfo),
                    Some(InfoSubject::Unreadable) => r matches Err(e) && e@ == bad_subject_text(),
                    None => r == plan_of(ServiceId::LnpBroker, RpcMsg::GetInfo, FollowUp::PrintInfo),
                },
                Command::Peers => r == plan_of(ServiceId::LnpBroker, RpcMsg::ListPeers, FollowUp::ReportResponse),
                Command::Channels => r == plan_of(ServiceId::LnpBroker, RpcMsg::ListChannels, FollowUp::ReportResponse),
                Command::Funds => r == plan_of(ServiceId::LnpBroker, RpcMsg::ListFunds, FollowUp::ReportResponse),
                Command::Listen { ip_addr, port, bolt, bifrost } => r == plan_of(
                    ServiceId::LnpBroker,
                    RpcMsg::Listen(ListenAddr {
                        protocol: if bifrost { Protocol::Bolt } else { Protocol::Bifrost },
                        ip_addr,
                        port,
                    }),
                    FollowUp::ReportProgress,
                ),
                Command::Connect { peer } => r == plan_of(ServiceId::LnpBroker, RpcMsg::ConnectPeer(peer), FollowUp::ReportProgress),
                Command::Ping { peer, bolt, bifrost } => r == plan_of(
                    if bolt { ServiceId::PeerBolt(peer) } else { ServiceId::PeerBifrost(peer) },
                    RpcMsg::PingPeer,
                    FollowUp::Nothing,
                ),
                Command::Open {
                    peer,
                    funding_sat,
                    push_msat,
                    fee_rate,
                    announce_channel,
                    channel_type,
                    dust_limit,
                    to_self_delay,
                    htlc_max_count,
                    htlc_min_value,
                    htlc_max_total_value,
                    channel_reserve,
                } => r == plan_of(
                    ServiceId::LnpBroker,
                    RpcMsg::CreateChannel(CreateChannel {
                        remote_peer: peer,
                        report_to: Some(client),
                        funding_sat,
                        push_msat: match push_msat { Some(p) => p, None => 0 },
                        fee_rate,
                        announce_channel,
                        channel_type,
                        dust_limit,
                        to_self_delay,
                        htlc_max_count,
                        htlc_min_value,
                        htlc_max_total_value,
                        channel_reserve,
                    }),
                    FollowUp::ReportProgress,
                ),
                Command::Pay { invoice, channel, amount_msat } => r == plan_of(
                    ServiceId::Router,
                    RpcMsg::PayInvoice(PayInvoice { invoice, channel_id: channel, amount_msat }),
                    FollowUp::ReportProgress,
                ),
                Command::Invoice { .. } => false,
            },
    {
        match self {
            Command::Info { subject, bolt, bifrost: _ } => {
                let target = match subject {
                    Some(InfoSubject::Node(n)) => if bolt { ServiceId::PeerBolt(n) } else { ServiceId::PeerBifrost(n) },
                    Some(InfoSubject::Channel(c)) => ServiceId::Channel(c),
                    Some(InfoSubject::Unreadable) => {
                        return Err(String::from_str(
                            "Subject parameter must be either remote node address or channel id represented by a hex string",
                        ));
                    }
                    None => ServiceId::LnpBroker,
                };
                Ok(CommandPlan { target, request: RpcMsg::GetInfo, follow_up: FollowUp::PrintInfo })
            }
            Command::Peers => Ok(CommandPlan { target: ServiceId::LnpBroker, request: RpcMsg::ListPeers, follow_up: FollowUp::ReportResponse }),
            Command::Channels => Ok(CommandPlan { target: ServiceId::LnpBroker, request: RpcMsg::ListChannels, follow_up: FollowUp::ReportResponse }),
            Command::Funds => Ok(CommandPlan { target: ServiceId::LnpBroker, request: RpcMsg::ListFunds, follow_up: FollowUp::ReportResponse }),
            Command::Listen { ip_addr, port, bolt: _, bifrost } => {
                let protocol = if bifrost { Protocol::Bolt } else { Protocol::Bifrost };
                Ok(CommandPlan {
                    target: ServiceId::LnpBroker,
                    request: RpcMsg::Listen(ListenAddr { protocol, ip_addr, port }),
                    follow_up: FollowUp::ReportProgress,
                })
            }
            Command::Connect { peer } => Ok(CommandPlan {
                target: ServiceId::LnpBroker,
                request: RpcMsg::ConnectPeer(peer),
                follow_up: FollowUp::ReportProgress,
            }),
            Command::Ping { peer, bolt, bifrost: _ } => {
                let target = if bolt { ServiceId::PeerBolt(peer) } else { ServiceId::PeerBifrost(peer) };
                Ok(CommandPlan { target, request: RpcMsg::PingPeer, follow_up: FollowUp::Nothing })
            }
            Command::Open {
                peer,
                funding_sat,
                push_msat,
                fee_rate,
                announce_channel,
                channel_type,
                dust_limit,
                to_self_delay,
                htlc_max_count,
                htlc_min_value,
                htlc_max_total_value,
                channel_reserve,
            } => {
                let push = match push_msat {
                    Some(p) => p,
                    None => 0,
                };
                Ok(CommandPlan {
                    target: ServiceId::LnpBroker,
                    request: RpcMsg::CreateChannel(CreateChannel {
                        remote_peer: peer,
                        report_to: Some(client),
                        funding_sat,
                        push_msat: push,
                        fee_rate,
                        announce_channel,
                        channel_type,
                        dust_limit,
                        to_self_delay,
                        htlc_max_count,
                        htlc_min_value,
                        htlc_max_total_value,
                        channel_reserve,
                    }),
                    follow_up: FollowUp::ReportProgress,
                })
            }
            Command::Pay { invoice, channel, amount_msat } => Ok(CommandPlan {
                target: ServiceId::Router,
                request: RpcMsg::PayInvoice(PayInvoice { invoice, channel_id: channel, amount_msat }),
                follow_up: FollowUp::ReportProgress,
            }),
            Command::Invoice { .. } => {
                proof { assert(false); }
                Err(String::new())
            }
        }
    }
}

/// Channel commands of the node's own command-line tool.
#[derive(Clone, PartialEq, Eq, Debug)]
pub enum ChannelCommand {
    /// Propose a new channel to a remote peer, funded with the amount
    Propose { peer: NodeAddr, funding_satoshis: u64 },
    /// Fund a proposed channel from a transaction output
    Fund { channel: [u8; 32], funding_outpoint: OutPoint },
}

/// The control request of a channel command.
#[derive(Clone, PartialEq, Eq, Debug)]
pub enum ChannelRequest {
    /// open a channel funded with the amount through the peer daemon, and
    /// report to the client; the daemon fills in the other parameters
    OpenChannelWith { funding_satoshis: u64, peerd: ServiceId, report_to: Option<ClientId> },
    /// fund the channel from the output
    FundChannel(OutPoint),
}

/// A channel command's request: the daemon, the message, and whether the
/// tool waits for the funding output of the channel once the progress
/// reports ended.
#[derive(Clone, PartialEq, Eq, Debug)]
pub struct ChannelPlan {
    pub target: ServiceId,
    pub request: ChannelRequest,
    pub await_funding: bool,
}

impl ChannelCommand {
    /// The request a channel command makes from the client `client`. Both
    /// follow the progress reports; a proposal then waits for the funding
    /// output.
    pub fn plan(self, client: ClientId) -> (r: ChannelPlan)
        ensures
            match self {
                ChannelCommand::Propose { peer, funding_satoshis } => r == ChannelPlan {
                    target: ServiceId::LnpBroker,
                    request: ChannelRequest::OpenChannelWith {
                        funding_satoshis,
                        peerd: ServiceId::PeerBolt(peer),
                        report_to: Some(client),
                    },
                    await_funding: true,
                },
                ChannelCommand::Fund { channel, funding_outpoint } => r == ChannelPlan {
                    target: ServiceId::Channel(channel),
                    request: ChannelRequest::FundChannel(funding_outpoint),
                    await_funding: false,
                },
            },
    {
        match self {
            ChannelCommand::Propose { peer, funding_satoshis } => ChannelPlan {
                target: ServiceId::LnpBroker,
                request: ChannelRequest::OpenChannelWith {
                    funding_satoshis,
                    peerd: ServiceId::PeerBolt(peer),
                    report_to: Some(client),
                },
                await_funding: true,
            },
            ChannelCommand::Fund { channel, funding_outpoint } => ChannelPlan {
                target: ServiceId::Channel(channel),
                request: ChannelRequest::FundChannel(funding_outpoint),
                await_funding: false,
            },
        }
    }
}

/// The line asking to fund a channel by paying to an address: the prompt,
/// which ends in a space, and the address, printed one space apart.
pub open spec fn pay_to_address_text(address: Seq<char>) -> Seq<char> {
    "Please transfer channel funding to  "@ + address
}

/// The lines asking to fund a channel by an output with a raw script.
pub open spec fn pay_to_script_text(script: Seq<u8>) -> Seq<char> {
    "Please transfer channel funding to an output with the following raw `scriptPubkey`\nAssembly: "@
        + script_assembly(script) + "\nHex: "@ + lower_hex(script)
}

/// The warning where the funding script has no address on the chain.
pub open spec fn no_address_text() -> Seq<char> {
    "Can't generate funding address for a given network"@
}

/// The error where the answer to a proposal is no funding output.
pub open spec fn no_funding_text() -> Seq<char> {
    "Unexpected server response while waiting for channel funding information"@
}

/// The address a funding script pays to on the chain: none where the chain
/// is no bitcoin network.
pub open spec fn funding_address_on(chain: Chain, script: Seq<u8>) -> Option<Seq<char>> {
    match chain_network(chain) {
        Some(n) => address_text(script, n),
        None => None,
    }
}

/// What the tool prints on standard output and on standard error.
#[derive(Clone, PartialEq, Eq, Debug)]
pub struct Printout {
    pub stdout: Option<String>,
    pub stderr: Option<String>,
}

/// What the tool prints on the answer that follows a channel proposal: the
/// address to pay the funding to, where the funding script has one on the
/// chain; else a warning and the script's assembly and hexadecimal form;
/// and an error on an answer that is no funding output.
pub fn funding_printout(chain: &Chain, answer: RpcMsg) -> (r: Printout)
    ensures
        match answer {
            RpcMsg::ChannelFunding(script) => match funding_address_on(*chain, script@) {
                Some(a) => {
                    &&& r.stdout matches Some(t) && t@ == pay_to_address_text(a)
                    &&& r.stderr is None
                },
                None => {
                    &&& r.stdout matches Some(t) && t@ == pay_to_script_text(script@)
                    &&& r.stderr matches Some(e) && e@ == no_address_text()
                },
            },
            _ => {
                &&& r.stdout is None
                &&& r.stderr matches Some(e) && e@ == no_funding_text()
            },
        },
{
    match answer {
        RpcMsg::ChannelFunding(script) => {
            let address = match network_of(chain) {
                Ok(n) => funding_address(&script, n),
                Err(_) => None,
            };
            match address {
                Some(a) => {
                    let mut line = String::from_str("Please transfer channel funding to  ");
                    line.append(a.as_str());
                    Printout { stdout: Some(line), stderr: None }
                }
                None => {
                    let mut lines = String::from_str(
                        "Please transfer channel funding to an output with the following raw `scriptPubkey`\nAssembly: ",
                    );
                    let assembly = script_assembly_string(&script);
                    lines.append(assembly.as_str());
                    lines.append("\nHex: ");
                    let hex = script_hex(&script);
                    lines.append(hex.as_str());
                    Printout {
                        stdout: Some(lines),
                        stderr: Some(String::from_str("Can't generate funding address for a given network")),
                    }
                }
            }
        }
        _ => Printout {
            stdout: None,
            stderr: Some(String::from_str("Unexpected server response while waiting for channel funding information")),
        },
    }
}

} // verus!
