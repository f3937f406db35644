use lnp_node::cli::{Command, FollowUp, InfoSubject};
use lnp_node::rpc::{CreateChannel, ListenAddr, PayInvoice, Protocol, RpcMsg};
use lnp_node::service::{NodeAddr, ServiceId};

fn peer() -> NodeAddr {
    NodeAddr { node_id: [2u8; 33], addr: "1.2.3.4:9735".to_string() }
}

#[test]
fn action_strings() {
    assert_eq!(Command::Funds.action_string(), "Retrieving information about funds");
    assert_eq!(Command::Peers.action_string(), "Retrieving information about peers");
    assert_eq!(Command::Channels.action_string(), "Retrieving information about channels");
    assert_eq!(Command::Connect { peer: peer() }.action_string(), "Connecting to remore peer");
    assert_eq!(Command::Invoice { amount: 1, asset: "btc".to_string() }.action_string(), "Creating invoice");
}

#[test]
fn info_targets() {
    let p = Command::Info { subject: None, bolt: false, bifrost: false }.plan(1).unwrap();
    assert_eq!(p.target, ServiceId::LnpBroker);
    assert_eq!(p.request, RpcMsg::GetInfo);
    assert_eq!(p.follow_up, FollowUp::PrintInfo);
    let p = Command::Info { subject: Some(InfoSubject::Node(peer())), bolt: true, bifrost: false }.plan(1).unwrap();
    assert_eq!(p.target, ServiceId::PeerBolt(peer()));
    let p = Command::Info { subject: Some(InfoSubject::Channel([4u8; 32])), bolt: false, bifrost: false }.plan(1).unwrap();
    assert_eq!(p.target, ServiceId::Channel([4u8; 32]));
    let e = Command::Info { subject: Some(InfoSubject::Unreadable), bolt: false, bifrost: false }.plan(1).unwrap_err();
    assert_eq!(e, "Subject parameter must be either remote node address or channel id represented by a hex string");
}

#[test]
fn listen_flags_are_swapped() {
    let p = Command::Listen { ip_addr: "0.0.0.0".to_string(), port: 9735, bolt: false, bifrost: true }.plan(1).unwrap();
    assert_eq!(p.request, RpcMsg::Listen(ListenAddr { protocol: Protocol::Bolt, ip_addr: "0.0.0.0".to_string(), port: 9735 }));
    assert_eq!(p.follow_up, FollowUp::ReportProgress);
}

#[test]
fn open_builds_request() {
    let cmd = Command::Open {
        peer: peer(),
        funding_sat: 1000,
        push_msat: None,
        fee_rate: Some(3),
        announce_channel: None,
        channel_type: None,
        dust_limit: None,
        to_self_delay: None,
        htlc_max_count: None,
        htlc_min_value: None,
        htlc_max_total_value: None,
        channel_reserve: None,
    };
    let p = cmd.plan(77).unwrap();
    assert_eq!(p.target, ServiceId::LnpBroker);
    assert_eq!(
        p.request,
        RpcMsg::CreateChannel(CreateChannel {
            remote_peer: peer(),
            report_to: Some(77),
            funding_sat: 1000,
            push_msat: 0,
            fee_rate: Some(3),
            announce_channel: None,
            channel_type: None,
            dust_limit: None,
            to_self_delay: None,
            htlc_max_count: None,
            htlc_min_value: None,
            htlc_max_total_value: None,
            channel_reserve: None,
        })
    );
}

#[test]
fn ping_and_pay() {
    let p = Command::Ping { peer: peer(), bolt: false, bifrost: true }.plan(1).unwrap();
    assert_eq!(p.target, ServiceId::PeerBifrost(peer()));
    assert_eq!(p.follow_up, FollowUp::Nothing);
    let p = Command::Pay { invoice: "lnbc1".to_string(), channel: [1u8; 32], amount_msat: Some(5) }.plan(1).unwrap();
    assert_eq!(p.target, ServiceId::Router);
    assert_eq!(p.request, RpcMsg::PayInvoice(PayInvoice { invoice: "lnbc1".to_string(), channel_id: [1u8; 32], amount_msat: Some(5) }));
}

use lnp_node::cli::{funding_printout, ChannelCommand, ChannelPlan, ChannelRequest, Printout};
use lnp_node::config::Chain;
use lnp_node::funding::OutPoint;

#[test]
fn propose_opens_through_the_broker_and_awaits_funding() {
    let plan = ChannelCommand::Propose { peer: peer(), funding_satoshis: 50_000 }.plan(7);
    assert_eq!(
        plan,
        ChannelPlan {
            target: ServiceId::LnpBroker,
            request: ChannelRequest::OpenChannelWith {
                funding_satoshis: 50_000,
                peerd: ServiceId::PeerBolt(peer()),
                report_to: Some(7),
            },
            await_funding: true,
        }
    );
}

#[test]
fn fund_goes_to_the_channel() {
    let outpoint = OutPoint { txid: [5u8; 32], vout: 1 };
    let plan = ChannelCommand::Fund { channel: [6u8; 32], funding_outpoint: outpoint }.plan(7);
    assert_eq!(plan.target, ServiceId::Channel([6u8; 32]));
    assert_eq!(plan.request, ChannelRequest::FundChannel(outpoint));
    assert!(!plan.await_funding);
}

fn p2wpkh() -> Vec<u8> {
    let mut s = vec![0x00, 0x14];
    s.extend_from_slice(&[
        0x75, 0x1e, 0x76, 0xe8, 0x19, 0x91, 0x96, 0xd4, 0x54, 0x94, 0x1c, 0x45, 0xd1, 0xb3, 0xa3, 0x23, 0xf1, 0x43,
        0x3b, 0xd6,
    ]);
    s
}

#[test]
fn funding_address_on_mainnet() {
    let out = funding_printout(&Chain::Mainnet, RpcMsg::ChannelFunding(p2wpkh()));
    assert_eq!(
        out,
        Printout {
            stdout: Some("Please transfer channel funding to  bc1qw508d6qejxtdg4y5r3zarvary0c5xw7kv8f3t4".to_string()),
            stderr: None,
        }
    );
}

#[test]
fn funding_script_without_network() {
    let out = funding_printout(&Chain::LiquidV1, RpcMsg::ChannelFunding(p2wpkh()));
    assert_eq!(out.stderr.as_deref(), Some("Can't generate funding address for a given network"));
    assert_eq!(
        out.stdout.as_deref(),
        Some(
            "Please transfer channel funding to an output with the following raw `scriptPubkey`\n\
             Assembly: OP_0 OP_PUSHBYTES_20 751e76e8199196d454941c45d1b3a323f1433bd6\n\
             Hex: 0014751e76e8199196d454941c45d1b3a323f1433bd6"
        )
    );
}

#[test]
fn funding_script_without_address() {
    let out = funding_printout(&Chain::Testnet3, RpcMsg::ChannelFunding(vec![0x51]));
    assert_eq!(out.stderr.as_deref(), Some("Can't generate funding address for a given network"));
    assert!(out.stdout.unwrap().ends_with("\nHex: 51"));
}

#[test]
fn funding_answer_unexpected() {
    let out = funding_printout(&Chain::Mainnet, RpcMsg::Progress("x".to_string()));
    assert_eq!(out.stdout, None);
    assert_eq!(
        out.stderr.as_deref(),
        Some("Unexpected server response while waiting for channel funding information")
    );
}
