use lnp_node::rpc::{
    report_failure, report_progress, report_progress_or_failure, report_success, ApiFailure,
    ChannelType, CommonParams, CreateChannel, Failure, FailureCode, IntoSuccessOrFalure,
    LaunchError, OptionDetails, PeerParams, Reply, RpcMsg, ToProgressOrFalure,
};
use lnp_node::service::{NodeAddr, ServiceBus, ServiceId};

fn peer() -> NodeAddr {
    NodeAddr { node_id: [2u8; 33], addr: "127.0.0.1:9735".to_string() }
}

fn request() -> CreateChannel {
    CreateChannel {
        remote_peer: peer(),
        report_to: Some(7),
        funding_sat: 100_000,
        push_msat: 0,
        fee_rate: None,
        announce_channel: None,
        channel_type: None,
        dust_limit: None,
        to_self_delay: None,
        htlc_max_count: None,
        htlc_min_value: None,
        htlc_max_total_value: None,
        channel_reserve: None,
    }
}

fn common() -> CommonParams {
    CommonParams { minimum_depth: 3, feerate_per_kw: 253, announce_channel: true, channel_type: ChannelType::Basic }
}

fn local() -> PeerParams {
    PeerParams {
        dust_limit_satoshis: 354,
        to_self_delay: 144,
        htlc_minimum_msat: 1,
        max_htlc_value_in_flight_msat: 1_000_000,
        max_accepted_htlcs: 483,
        channel_reserve_satoshis: 1000,
    }
}

#[test]
fn failure_code_numbers() {
    assert_eq!(FailureCode::Unknown.to_u16(), 0xFFF);
    assert_eq!(FailureCode::Encoding.to_u16(), 0x02);
    assert_eq!(FailureCode::Launch.to_u16(), 0x03);
    assert_eq!(FailureCode::Channel.to_u16(), 0x20);
    assert_eq!(FailureCode::Lnpd.to_u16(), 0x10);
    assert_eq!(FailureCode::Nested.to_u16(), 0xFFE);
    assert_eq!(FailureCode::from_u16(0x20), FailureCode::Channel);
    for c in [FailureCode::Unknown, FailureCode::Encoding, FailureCode::Launch, FailureCode::Channel, FailureCode::Lnpd, FailureCode::Nested] {
        assert_eq!(FailureCode::from_u16(c.to_u16()), c);
    }
    assert_eq!(FailureCode::from_u16(0x1234), FailureCode::Unknown);
    assert_eq!(FailureCode::Channel.to_display_string(), "Channel");
}

#[test]
fn failure_display() {
    let f = Failure { code: FailureCode::Channel, info: "boom".to_string() };
    assert_eq!(f.to_display_string(), "boom");
    assert_eq!(f.to_alt_display_string(), "Server returned failure #Channel: boom");
    assert_eq!(Failure::nested("x".to_string()).code, FailureCode::Nested);
    assert_eq!(f.duplicate(), f);
}

#[test]
fn apply_params_neutral() {
    let mut c = common();
    let mut l = local();
    request().apply_params(&mut c, &mut l);
    assert_eq!(c, common());
    assert_eq!(l, local());
}

#[test]
fn apply_params_overrides() {
    let mut r = request();
    r.fee_rate = Some(1000);
    r.channel_type = Some(ChannelType::Anchored);
    r.dust_limit = Some(600);
    r.htlc_max_count = Some(30);
    let mut c = common();
    let mut l = local();
    r.apply_params(&mut c, &mut l);
    assert_eq!(c.feerate_per_kw, 1000);
    assert_eq!(c.channel_type, ChannelType::Anchored);
    assert_eq!(c.minimum_depth, 3);
    assert!(c.announce_channel);
    assert_eq!(l.dust_limit_satoshis, 600);
    assert_eq!(l.max_accepted_htlcs, 30);
    assert_eq!(l.to_self_delay, 144);
    let (c1, l1) = (c, l);
    let mut c2 = c1;
    let mut l2 = l1;
    r.apply_params(&mut c2, &mut l2);
    assert_eq!(c1, c2);
    assert_eq!(l1, l2);
}

#[test]
fn reports_go_to_client_from_broker() {
    let r = report_progress(5, "working".to_string());
    assert_eq!(r.bus, ServiceBus::Rpc);
    assert_eq!(r.source, ServiceId::LnpBroker);
    assert_eq!(r.destination, ServiceId::Client(5));
    assert_eq!(r.message, RpcMsg::Progress("working".to_string()));
    let s = report_success(6, OptionDetails::new());
    assert_eq!(s.destination, ServiceId::Client(6));
    assert_eq!(s.message, RpcMsg::success());
    let f = Failure { code: FailureCode::Lnpd, info: "no".to_string() };
    let (report, result) = report_failure(1, f.clone());
    assert_eq!(report.message, RpcMsg::Failure(f.clone()));
    assert_eq!(result, Err(f.clone()));
    let (report, result) = report_failure(2, LaunchError("no".to_string()));
    assert_eq!(report.message, RpcMsg::Failure(Failure { code: FailureCode::Launch, info: "no".to_string() }));
    assert_eq!(result, Err(LaunchError("no".to_string())));
    assert_eq!(
        report_progress_or_failure(1, Err(f.clone())).0.message,
        RpcMsg::Failure(f)
    );
    assert_eq!(
        report_progress_or_failure::<Failure>(1, Ok("ok".to_string())).0.message,
        RpcMsg::Progress("ok".to_string())
    );
}

#[test]
fn launch_results_to_messages() {
    let ok: Result<String, LaunchError> = Ok("done".to_string());
    let err: Result<String, LaunchError> = Err(LaunchError("failed".to_string()));
    assert_eq!(ok.to_progress_or_failure(), RpcMsg::Progress("done".to_string()));
    assert_eq!(
        err.to_progress_or_failure(),
        RpcMsg::Failure(Failure { code: FailureCode::Launch, info: "failed".to_string() })
    );
    assert_eq!(
        ok.into_success_or_failure(),
        RpcMsg::Success(OptionDetails(Some("done".to_string())))
    );
    assert_eq!(
        err.into_success_or_failure(),
        RpcMsg::Failure(Failure { code: FailureCode::Launch, info: "failed".to_string() })
    );
}

#[test]
fn progress_message_from_text() {
    assert_eq!(RpcMsg::from_str("hi"), RpcMsg::Progress("hi".to_string()));
    assert_eq!(
        Reply::from_error_text("bad".to_string()),
        Reply::Failure(ApiFailure { code: 0, info: "bad".to_string() })
    );
}
