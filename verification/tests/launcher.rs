use lnp_node::launcher::{
    complete, derivation_report, launch_report, ChannelLauncher, LauncherAction, LauncherDecision,
    LauncherError, LauncherMsg, LauncherReport, LauncherStageName, LauncherWork, MsgKind, Pending,
};
use lnp_node::rpc::{ApiFailure, ChannelType, CommonParams, CreateChannel, PeerParams};
use lnp_node::service::{NodeAddr, ServiceId};

type Keys = u8;

fn peer() -> NodeAddr {
    NodeAddr { node_id: [2u8; 33], addr: "127.0.0.1:9735".to_string() }
}

fn request() -> CreateChannel {
    CreateChannel {
        remote_peer: peer(),
        report_to: Some(1),
        funding_sat: 50_000,
        push_msat: 0,
        fee_rate: Some(500),
        announce_channel: None,
        channel_type: None,
        dust_limit: None,
        to_self_delay: None,
        htlc_max_count: None,
        htlc_min_value: None,
        htlc_max_total_value: None,
        channel_reserve: None,
    }
}

fn common() -> CommonParams {
    CommonParams { minimum_depth: 1, feerate_per_kw: 253, announce_channel: false, channel_type: ChannelType::StaticRemotekey }
}

fn local() -> PeerParams {
    PeerParams {
        dust_limit_satoshis: 354,
        to_self_delay: 144,
        htlc_minimum_msat: 1,
        max_htlc_value_in_flight_msat: 1_000,
        max_accepted_htlcs: 10,
        channel_reserve_satoshis: 100,
    }
}

fn launched_text() -> String {
    format!("Channel daemon connecting to remote peer {} is launched", peer().to_display_string())
}

#[test]
fn init_then_hello_then_keyset() {
    let l: ChannelLauncher<Keys> = ChannelLauncher::with([7u8; 32], request(), 9);
    assert_eq!(l.to_display_string(), "INIT");
    assert_eq!(l.channel_id(), [7u8; 32]);
    let d = l.next(LauncherMsg::Hello, &ServiceId::Channel([7u8; 32]), common(), local());
    let l = match d {
        LauncherDecision::Moved { reports, next } => {
            assert_eq!(reports, vec![LauncherReport::Progress(launched_text())]);
            next
        }
        other => panic!("unexpected decision {:?}", other),
    };
    assert_eq!(l, ChannelLauncher::Deriving([7u8; 32], request(), 9));
    let d = l.next(LauncherMsg::Keyset(5), &ServiceId::Signer, common(), local());
    match d {
        LauncherDecision::Work { reports, action, pending } => {
            assert_eq!(reports, vec![LauncherReport::Progress("Key derivation complete".to_string())]);
            let mut c = common();
            c.feerate_per_kw = 500;
            assert_eq!(action, LauncherAction::OpenChannel { request: request(), common: c, local: local(), keyset: 5 });
            assert_eq!(pending, Pending::Negotiating([7u8; 32], 9));
        }
        other => panic!("unexpected decision {:?}", other),
    }
}

#[test]
fn keyset_first_then_hello() {
    let l: ChannelLauncher<Keys> = ChannelLauncher::Init([1u8; 32], request(), 3);
    let l = match l.next(LauncherMsg::Keyset(4), &ServiceId::Signer, common(), local()) {
        LauncherDecision::Moved { next, .. } => next,
        other => panic!("{:?}", other),
    };
    assert_eq!(l.to_display_string(), "LAUNCHING");
    match l.next(LauncherMsg::Hello, &ServiceId::Channel([1u8; 32]), common(), local()) {
        LauncherDecision::Work { reports, pending, .. } => {
            assert_eq!(reports, vec![LauncherReport::Progress(launched_text())]);
            assert_eq!(pending, Pending::Negotiating([1u8; 32], 3));
        }
        other => panic!("{:?}", other),
    }
}

#[test]
fn unexpected_message_fails_with_report() {
    let l: ChannelLauncher<Keys> = ChannelLauncher::Deriving([1u8; 32], request(), 3);
    let err = LauncherError::UnexpectedMessage(MsgKind::Hello, LauncherStageName::Deriving);
    match l.next(LauncherMsg::Hello, &ServiceId::Signer, common(), local()) {
        LauncherDecision::Failed { reports, error } => {
            assert_eq!(error, err);
            assert_eq!(
                reports,
                vec![LauncherReport::Failure(ApiFailure {
                    code: 6000,
                    info: "the received message hello was not expected at the DERIVING stage of the channel launch workflow".to_string()
                })]
            );
        }
        other => panic!("{:?}", other),
    }
}

#[test]
fn negotiation_constructs_funding() {
    let l: ChannelLauncher<Keys> = ChannelLauncher::Negotiating([1u8; 32], 3);
    match l.next(LauncherMsg::ConstructFunding { amount: 1000, address: vec![0x00, 0x14, 7], fee: 10 }, &ServiceId::Channel([1u8; 32]), common(), local()) {
        LauncherDecision::Work { reports, action, pending } => {
            assert_eq!(reports, vec![LauncherReport::Progress("Remote peer accepted the channel".to_string())]);
            assert_eq!(action, LauncherAction::ConstructFunding { temp_channel_id: [1u8; 32], address: vec![0x00, 0x14, 7], amount: 1000, fee: 10 });
            assert_eq!(pending, Pending::Committing([1u8; 32], 3));
        }
        other => panic!("{:?}", other),
    }
    let mut txid = [0u8; 32];
    txid[0] = 0x01;
    let c = complete::<Keys>(Pending::Committing([0xaau8; 32], 3), LauncherWork::Funded { txid, vout: 2 });
    let mut permanent = txid;
    permanent[31] ^= 2;
    assert_eq!(c.id_update, Some(([0xaau8; 32], permanent)));
    assert_eq!(c.result, Ok(Some(ChannelLauncher::Committing([0xaau8; 32], txid, 3))));
    assert_eq!(
        c.reports,
        vec![
            LauncherReport::Progress(format!(
                "Constructed funding transaction with funding outpoint is {}01:2",
                "00".repeat(31)
            )),
            LauncherReport::Progress(format!(
                "Channel changed id from temporary {} to permanent {}",
                "aa".repeat(32),
                format!("01{}02", "00".repeat(30))
            )),
        ]
    );
}

#[test]
fn committing_asks_signer() {
    let txid = [9u8; 32];
    let l: ChannelLauncher<Keys> = ChannelLauncher::Committing([1u8; 32], txid, 3);
    match l.next(LauncherMsg::PublishFunding, &ServiceId::Channel([5u8; 32]), common(), local()) {
        LauncherDecision::Work { reports, action, pending } => {
            assert!(reports.is_empty());
            assert_eq!(action, LauncherAction::SignFunding { txid });
            assert_eq!(pending, Pending::Signing([5u8; 32], txid, 3));
        }
        other => panic!("{:?}", other),
    }
    let c = complete::<Keys>(Pending::Signing([5u8; 32], txid, 3), LauncherWork::Sent);
    assert_eq!(c.result, Ok(Some(ChannelLauncher::Signing([5u8; 32], txid, 3))));
    assert_eq!(c.reports, vec![LauncherReport::Progress(format!("Signing funding transaction {}", "09".repeat(32)))]);
}

#[test]
fn signing_checks_txid_and_publishes() {
    let txid = [9u8; 32];
    let l: ChannelLauncher<Keys> = ChannelLauncher::Signing([5u8; 32], txid, 3);
    match l.clone().next(LauncherMsg::Signed { txid: [8u8; 32] }, &ServiceId::Signer, common(), local()) {
        LauncherDecision::Failed { error, .. } => {
            assert_eq!(error, LauncherError::SignedTxidChanged { unsigned_txid: txid, signed_txid: [8u8; 32] });
            assert_eq!(
                error.to_display_string(),
                format!("transaction id changed after signing from {} to {}; may be signd is hacked", "09".repeat(32), "08".repeat(32))
            );
        }
        other => panic!("{:?}", other),
    }
    match l.next(LauncherMsg::Signed { txid }, &ServiceId::Signer, common(), local()) {
        LauncherDecision::Work { action, pending, .. } => {
            assert_eq!(action, LauncherAction::Publish);
            assert_eq!(pending, Pending::Done);
        }
        other => panic!("{:?}", other),
    }
    let c = complete::<Keys>(Pending::Done, LauncherWork::Sent);
    assert_eq!(c.result, Ok(None));
    assert_eq!(c.reports, vec![LauncherReport::Success("Channel created and active".to_string())]);
    let e = LauncherError::Funding("rejected".to_string());
    let c = complete::<Keys>(Pending::Done, LauncherWork::Failed(e.clone()));
    assert_eq!(c.result, Err(e));
    assert!(c.reports.is_empty());
}

#[test]
fn failed_sending_is_reported() {
    let e = LauncherError::Esb("down".to_string());
    let c = complete::<Keys>(Pending::Negotiating([1u8; 32], 3), LauncherWork::Failed(e.clone()));
    assert_eq!(c.result, Err(e.clone()));
    assert_eq!(
        c.reports,
        vec![LauncherReport::Failure(ApiFailure {
            code: 6000,
            info: "failure sending RPC request during state transition. Details: down".to_string()
        })]
    );
}

#[test]
fn start_reports() {
    let (r, ok) = launch_report(Ok("channeld#1".to_string()));
    assert_eq!(r, LauncherReport::Progress("Launched new instance of channeld#1".to_string()));
    assert_eq!(ok, Ok(()));
    let (r, err) = launch_report(Err("no binary".to_string()));
    assert_eq!(err, Err(LauncherError::DaemonLaunch("no binary".to_string())));
    assert_eq!(
        r,
        LauncherReport::Failure(ApiFailure { code: 6000, info: "unable to launch channel daemon. Details: no binary".to_string() })
    );
    let (r, ok) = derivation_report(Ok(()));
    assert_eq!(r, LauncherReport::Progress("Deriving basepoint keys for the channel".to_string()));
    assert_eq!(ok, Ok(()));
}
