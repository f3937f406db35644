use lnp_node::channel::{
    esb_failure, process_outcome, BoltErrorKind, ChannelAccept, ChannelAction, ChannelError,
    ChannelMsg, ChannelPropose, ChannelStateMachine, Lifecycle, Step, Verdict,
};
use lnp_node::rpc::{Failure, FailureCode, RpcMsg};
use lnp_node::service::{NodeAddr, ServiceId};

fn peer() -> NodeAddr {
    NodeAddr { node_id: [3u8; 33], addr: "10.0.0.1:9735".to_string() }
}

fn step(m: &ChannelStateMachine, msg: ChannelMsg) -> Result<ChannelStateMachine, ChannelError> {
    m.plan(msg, ServiceId::PeerBolt(peer())).and_then(|s| s.finish(Ok(())))
}

#[test]
fn default_is_launch() {
    assert_eq!(ChannelStateMachine::default(), ChannelStateMachine::Launch);
    assert_eq!(ChannelStateMachine::Launch.lifecycle(), Lifecycle::Initial);
}

#[test]
fn propose_workflow_reaches_active() {
    let msgs = vec![
        ChannelMsg::OpenChannelWith,
        ChannelMsg::AcceptChannel,
        ChannelMsg::FundingConstructed,
        ChannelMsg::Signed,
        ChannelMsg::FundingSigned,
        ChannelMsg::TxFound,
        ChannelMsg::FundingLocked,
    ];
    let expected = vec![
        ChannelStateMachine::Propose(ChannelPropose::Proposed),
        ChannelStateMachine::Propose(ChannelPropose::Accepted),
        ChannelStateMachine::Propose(ChannelPropose::Signing),
        ChannelStateMachine::Propose(ChannelPropose::Funding),
        ChannelStateMachine::Propose(ChannelPropose::Published),
        ChannelStateMachine::Propose(ChannelPropose::Locked),
        ChannelStateMachine::Active,
    ];
    let mut m = ChannelStateMachine::Launch;
    for (msg, exp) in msgs.into_iter().zip(expected) {
        m = step(&m, msg).unwrap();
        assert_eq!(m, exp);
    }
}

#[test]
fn accept_workflow_reaches_active() {
    let mut m = ChannelStateMachine::Launch;
    for msg in [ChannelMsg::AcceptChannelFrom, ChannelMsg::Keyset, ChannelMsg::FundingCreated, ChannelMsg::FundingLocked, ChannelMsg::Hello] {
        m = step(&m, msg).unwrap();
    }
    assert_eq!(m, ChannelStateMachine::Active);
}

#[test]
fn actions_of_propose_steps() {
    let s = ChannelStateMachine::Launch.plan(ChannelMsg::OpenChannelWith, ServiceId::LnpBroker).unwrap();
    assert_eq!(s.action, ChannelAction::ProposeChannel);
    let s = ChannelStateMachine::Propose(ChannelPropose::Published)
        .plan(ChannelMsg::TxFound, ServiceId::Watch)
        .unwrap();
    assert_eq!(s, Step { action: ChannelAction::SendFundingLocked, next: ChannelStateMachine::Propose(ChannelPropose::Locked) });
}

#[test]
fn unexpected_message_names_stage() {
    let r = ChannelStateMachine::Propose(ChannelPropose::Published).plan(ChannelMsg::Hello, ServiceId::Signer);
    assert_eq!(r, Err(ChannelError::UnexpectedMessage(ChannelMsg::Hello, Lifecycle::Funded, ServiceId::Signer)));
    let r = ChannelStateMachine::Launch.plan(ChannelMsg::Signed, ServiceId::Signer);
    assert_eq!(r, Err(ChannelError::UnexpectedMessage(ChannelMsg::Signed, Lifecycle::Initial, ServiceId::Signer)));
    let r = ChannelStateMachine::Accept(ChannelAccept::Funded).plan(ChannelMsg::Hello, ServiceId::Router);
    assert_eq!(r, Err(ChannelError::UnexpectedMessage(ChannelMsg::Hello, Lifecycle::Funded, ServiceId::Router)));
    let r = ChannelStateMachine::Accept(ChannelAccept::Locked).plan(ChannelMsg::TxFound, ServiceId::Router);
    assert_eq!(r, Err(ChannelError::UnexpectedMessage(ChannelMsg::TxFound, Lifecycle::Locked, ServiceId::Router)));
}

#[test]
fn reestablish_and_active() {
    for m in [ChannelStateMachine::Launch, ChannelStateMachine::Closing, ChannelStateMachine::Accept(ChannelAccept::Signed)] {
        let s = m.plan(ChannelMsg::ChannelReestablish, ServiceId::PeerBolt(peer())).unwrap();
        assert_eq!(s, Step { action: ChannelAction::Reestablish, next: ChannelStateMachine::Active });
    }
    let s = ChannelStateMachine::Active.plan(ChannelMsg::Other, ServiceId::Signer).unwrap();
    assert_eq!(s, Step { action: ChannelAction::Nothing, next: ChannelStateMachine::Active });
}

#[test]
fn failed_work_keeps_error() {
    let s = Step { action: ChannelAction::SignRefund, next: ChannelStateMachine::Propose(ChannelPropose::Signing) };
    let e = ChannelError::Esb("gone".to_string());
    assert_eq!(s.finish(Err(e.clone())), Err(e));
}

#[test]
fn error_numbers() {
    assert_eq!(ChannelError::UnexpectedMessage(ChannelMsg::Other, Lifecycle::Initial, ServiceId::Signer).errno(), 1001);
    assert_eq!(ChannelError::Channel(BoltErrorKind::ChannelReestablish, String::new()).errno(), 2001);
    assert_eq!(ChannelError::Channel(BoltErrorKind::Htlc, String::new()).errno(), 2002);
    assert_eq!(ChannelError::Channel(BoltErrorKind::Policy, String::new()).errno(), 2003);
    assert_eq!(ChannelError::Channel(BoltErrorKind::LifecycleMismatch, String::new()).errno(), 2004);
    assert_eq!(ChannelError::Channel(BoltErrorKind::Funding, String::new()).errno(), 2005);
    assert_eq!(ChannelError::Channel(BoltErrorKind::Route, String::new()).errno(), 2006);
    assert_eq!(ChannelError::Channel(BoltErrorKind::NoChanelId, String::new()).errno(), 2007);
    assert_eq!(ChannelError::Channel(BoltErrorKind::NoTemporaryId, String::new()).errno(), 2008);
    assert_eq!(ChannelError::Esb(String::new()).errno(), 3001);
    assert_eq!(ChannelError::InvalidState { operation: "x".to_string(), current_state: Lifecycle::Active }.errno(), 4001);
    assert_eq!(ChannelError::FundingPsbtUnsigned([2u8; 33]).errno(), 5001);
    assert_eq!(ChannelError::InvalidSig(String::new()).errno(), 5002);
    assert_eq!(ChannelError::Persistence(String::new()).errno(), 6000);
    assert_eq!(ChannelError::NoPersistantData.errno(), 6001);
}

#[test]
fn error_texts() {
    let e = ChannelError::UnexpectedMessage(ChannelMsg::Hello, Lifecycle::Funded, ServiceId::Signer);
    assert_eq!(e.to_display_string(), "unexpected message from signer for a channel state funded. Message details: hello");
    assert_eq!(
        ChannelError::Esb("timeout".to_string()).to_display_string(),
        "error sending RPC request during state transition. Details: timeout"
    );
    assert_eq!(
        ChannelError::InvalidState { operation: "close".to_string(), current_state: Lifecycle::Proposed }.to_display_string(),
        "unable to close during proposed channel state"
    );
    assert!(ChannelError::FundingPsbtUnsigned([0xabu8; 33]).to_display_string().ends_with(&"ab".repeat(33)));
}

#[test]
fn info_messages() {
    assert_eq!(
        ChannelStateMachine::Propose(ChannelPropose::Proposed).info_message("t1"),
        "Proposing channel to remote peer (using temp id t1)"
    );
    assert_eq!(
        ChannelStateMachine::Accept(ChannelAccept::Signed).info_message("c9"),
        "Signed channel c9 from a remote peer"
    );
    assert_eq!(ChannelStateMachine::Launch.info_message("x"), "Launching channel daemon");
    assert_eq!(ChannelStateMachine::Abort.info_message("x"), "Unilaterally closing the channel");
    assert_eq!(ChannelStateMachine::Propose(ChannelPropose::Locked).to_display_string(), "LOCKED");
    assert_eq!(ChannelStateMachine::Accept(ChannelAccept::Locked).to_display_string(), "ACCEPT");
    assert_eq!(ChannelAccept::Funded.to_display_string(), "FUNDED");
    assert_eq!(ChannelPropose::Published.lifecycle(), Lifecycle::Funded);
}

#[test]
fn esb_failure_texts() {
    let f = esb_failure(&ServiceId::PeerBolt(peer()));
    assert_eq!(f.code, FailureCode::Channel);
    assert_eq!(
        f.info,
        format!("There is no connection with the remote peer {}; you have to `connect` to it first", peer().to_display_string())
    );
    assert_eq!(
        esb_failure(&ServiceId::Signer).info,
        "Unable to complete: daemon signer is offline or crashed"
    );
}

#[test]
fn outcome_of_success() {
    let next = ChannelStateMachine::Propose(ChannelPropose::Signing);
    let o = process_outcome(ChannelStateMachine::Propose(ChannelPropose::Accepted), &ChannelMsg::FundingConstructed, Ok(next), "cid");
    assert_eq!(o.state, next);
    assert_eq!(o.verdict, Verdict::Updated);
    assert_eq!(o.reports, vec![RpcMsg::Progress("Signing refund transaction locally for channel cid".to_string())]);
}

#[test]
fn outcome_of_rejection_and_bus_error() {
    let before = ChannelStateMachine::Propose(ChannelPropose::Funding);
    let err = ChannelError::UnexpectedMessage(ChannelMsg::EsbError(ServiceId::Signer), Lifecycle::Funding, ServiceId::Router);
    let o = process_outcome(before, &ChannelMsg::EsbError(ServiceId::Signer), Err(err.clone()), "cid");
    assert_eq!(o.state, before);
    assert_eq!(o.verdict, Verdict::Unchanged);
    assert_eq!(o.reports.len(), 2);
    assert_eq!(
        o.reports[0],
        RpcMsg::Failure(Failure { code: FailureCode::Channel, info: "Unable to complete: daemon signer is offline or crashed".to_string() })
    );
    assert_eq!(o.reports[1], RpcMsg::Failure(Failure { code: FailureCode::Channel, info: err.to_display_string() }));

    let esb = ChannelError::Esb("down".to_string());
    let o = process_outcome(before, &ChannelMsg::FundingSigned, Err(esb.clone()), "cid");
    assert_eq!(o.verdict, Verdict::Failed(esb));
    assert_eq!(o.state, before);
    assert_eq!(o.reports.len(), 1);
}

use lnp_node::channel::{peer_route, ChannelDaemon, CtlMsgKind, CtlRoute, PeerMsgKind, PeerRoute};

#[test]
fn peer_routes() {
    assert_eq!(peer_route(PeerMsgKind::OpenChannel), PeerRoute::Warn);
    assert_eq!(peer_route(PeerMsgKind::AcceptChannel), PeerRoute::Process(ChannelMsg::AcceptChannel));
    assert_eq!(peer_route(PeerMsgKind::FundingCreated), PeerRoute::Ignore);
    assert_eq!(peer_route(PeerMsgKind::ChannelReestablish), PeerRoute::Process(ChannelMsg::ChannelReestablish));
}

#[test]
fn ctl_routes_update_daemon() {
    let mut d = ChannelDaemon { enquirer: Some(1), remote_peer: None, state: ChannelStateMachine::Launch };
    let r = d.route_ctl(CtlMsgKind::OpenChannelWith { report_to: Some(4), remote_peer: peer() });
    assert_eq!(r, CtlRoute::Process(ChannelMsg::OpenChannelWith));
    assert_eq!(d.enquirer, Some(4));
    assert_eq!(d.remote_peer, Some(peer()));
    let mut d = ChannelDaemon { enquirer: Some(1), remote_peer: None, state: ChannelStateMachine::Launch };
    let r = d.route_ctl(CtlMsgKind::AcceptChannelFrom { remote_peer: peer() });
    assert_eq!(r, CtlRoute::Process(ChannelMsg::AcceptChannelFrom));
    assert_eq!(d.enquirer, None);
    assert_eq!(d.remote_peer, None);
    d.accepted(true, peer());
    assert_eq!(d.remote_peer, Some(peer()));
    assert_eq!(d.route_ctl(CtlMsgKind::Keyset), CtlRoute::Unsupported);
    assert_eq!(d.route_ctl(CtlMsgKind::Payment { enquirer: 8 }), CtlRoute::Payment);
    assert_eq!(d.enquirer, Some(8));
    d.payment_done();
    assert_eq!(d.enquirer, None);
}

use lnp_node::channel::{route_bus, startup, BusRoute, MsgFamily, Startup};
use lnp_node::service::ServiceBus;

#[test]
fn startups() {
    assert_eq!(startup(true, None), Ok(Startup::Restore));
    assert_eq!(startup(false, Some([1u8; 32])), Ok(Startup::Fresh([1u8; 32])));
    assert_eq!(startup(false, None), Err(ChannelError::NoPersistantData));
}

#[test]
fn bus_routes() {
    assert_eq!(route_bus(ServiceBus::Msg, MsgFamily::Bolt, ServiceId::PeerBolt(peer())), BusRoute::Peer(peer()));
    assert_eq!(route_bus(ServiceBus::Ctl, MsgFamily::Ctl, ServiceId::Signer), BusRoute::Ctl(ServiceId::Signer));
    assert_eq!(route_bus(ServiceBus::Rpc, MsgFamily::Rpc, ServiceId::Client(3)), BusRoute::Rpc(3));
    assert_eq!(route_bus(ServiceBus::Ctl, MsgFamily::Rpc, ServiceId::Client(3)), BusRoute::WrongMessage(ServiceBus::Ctl));
}

use lnp_node::channel::{payment_hop, PaymentError};

#[test]
fn payment_takes_first_hop() {
    let route = vec![10u64, 20, 30];
    assert_eq!(payment_hop(&route), Ok(&10));
    let empty: Vec<u64> = vec![];
    assert_eq!(payment_hop(&empty), Err(PaymentError::RouteNotFound));
}
