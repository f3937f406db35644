use lnp_node::service::{short_hex_string, BifrostApp, NodeAddr, ServiceBus, ServiceId, ServiceName};

fn peer() -> NodeAddr {
    let mut id = [0u8; 33];
    id[0] = 0x02;
    id[32] = 0xab;
    NodeAddr { node_id: id, addr: "127.0.0.1:9735".to_string() }
}

#[test]
fn service_name_pads_and_truncates() {
    let n = ServiceName::from_str("abc").unwrap();
    assert_eq!(&n.0[..3], b"abc");
    assert!(n.0[3..].iter().all(|b| *b == 0));
    let long = "x".repeat(40);
    let m = ServiceName::from_str(&long).unwrap();
    assert!(m.0.iter().all(|b| *b == b'x'));
    assert_eq!(m.to_display_string(), "x".repeat(32));
}

#[test]
fn service_name_alt_form_is_short_hex() {
    let mut b = [0u8; 32];
    b[0] = 0xde;
    b[1] = 0xad;
    b[31] = 0x01;
    assert_eq!(ServiceName(b).to_alt_display_string(), "dead0000..00000001");
    assert_eq!(short_hex_string(&[0xffu8; 32]), "ffffffff..ffffffff");
}

#[test]
fn node_addr_display() {
    let p = peer();
    let text = p.to_display_string();
    assert!(text.starts_with("02000000"));
    assert!(text.ends_with("00ab@127.0.0.1:9735"));
    assert_eq!(text.len(), 66 + 1 + 14);
    assert_eq!(p.clone(), p);
}

#[test]
fn service_id_display() {
    assert_eq!(ServiceId::Loopback.to_display_string(), "loopback");
    assert_eq!(ServiceId::LnpBroker.to_display_string(), "lnpd");
    assert_eq!(ServiceId::Watch.to_display_string(), "watchd");
    assert_eq!(ServiceId::Router.to_display_string(), "routed");
    assert_eq!(ServiceId::Signer.to_display_string(), "signer");
    assert_eq!(ServiceId::Client(42).to_display_string(), "client<42>");
    assert_eq!(ServiceId::MsgApp(BifrostApp(7)).to_display_string(), "msgapp<7>");
    assert_eq!(ServiceId::ChannelApp(BifrostApp(0)).to_display_string(), "chapp<0>");
    assert_eq!(ServiceId::Channel([0x11u8; 32]).to_display_string(), "channel<11111111..11111111>");
    let p = peer();
    assert_eq!(
        ServiceId::PeerBolt(p.clone()).to_display_string(),
        format!("peerd<bolt, {}>", p.to_display_string())
    );
    assert_eq!(
        ServiceId::PeerBifrost(p.clone()).to_display_string(),
        format!("peerd<biffrost, {}>", p.to_display_string())
    );
    let name = ServiceName::from_str("watcher").unwrap();
    assert_eq!(
        ServiceId::Other(name).to_display_string(),
        format!("other<watcher{}>", "\u{0}".repeat(25))
    );
}

#[test]
fn service_id_helpers() {
    assert_eq!(ServiceId::router(), ServiceId::LnpBroker);
    assert!(matches!(ServiceId::client(), ServiceId::Client(_)));
    assert_eq!(ServiceId::PeerBolt(peer()).to_remote_peer(), Some(peer()));
    assert_eq!(ServiceId::PeerBifrost(peer()).to_remote_peer(), None);
    assert_eq!(ServiceId::Signer.to_remote_peer(), None);
}

#[test]
fn bus_names() {
    assert_eq!(ServiceBus::Rpc.to_display_string(), "RPC");
    assert_eq!(ServiceBus::Msg.to_display_string(), "MSG");
    assert_eq!(ServiceBus::Ctl.to_display_string(), "CTL");
    assert_eq!(ServiceBus::Bridge.to_display_string(), "BRIDGE");
}

use lnp_node::service::DaemonId;

#[test]
fn daemon_ids_from_bytes() {
    assert_eq!(DaemonId::from_bytes(&b"lnpd".to_vec(), true), DaemonId::Lnpd);
    assert_eq!(DaemonId::from_bytes(&b"gossipd".to_vec(), false), DaemonId::Gossip);
    assert_eq!(DaemonId::from_bytes(&b"routed".to_vec(), false), DaemonId::Routing);
    assert_eq!(DaemonId::from_bytes(&b"host:1".to_vec(), true), DaemonId::Connection("host:1".to_string()));
    assert_eq!(DaemonId::from_bytes(&vec![7u8; 32], false), DaemonId::Channel([7u8; 32]));
    assert_eq!(DaemonId::from_bytes(&b"wallet".to_vec(), false), DaemonId::Foreign("wallet".to_string()));
}

#[test]
fn daemon_id_bytes() {
    assert_eq!(DaemonId::Lnpd.to_bytes(), b"lnpd".to_vec());
    assert_eq!(DaemonId::Routing.to_bytes(), b"routed".to_vec());
    assert_eq!(DaemonId::Channel([9u8; 32]).to_bytes(), vec![9u8; 32]);
    assert_eq!(DaemonId::Foreign("x".to_string()).to_bytes(), b"x".to_vec());
    let d = DaemonId::Channel([5u8; 32]);
    assert_eq!(DaemonId::from_bytes(&d.to_bytes(), false), d);
}

#[test]
fn invalid_names_read_lossily() {
    let mut b = [0x61u8; 32];
    b[0] = 0xff;
    let text = ServiceName(b).to_display_string();
    assert!(text.starts_with('\u{FFFD}'));
    assert_eq!(text.chars().count(), 32);
    assert_eq!(DaemonId::from_bytes(&vec![0xff, 0x61], false), DaemonId::Foreign("\u{FFFD}a".to_string()));
    let d = DaemonId::Connection("host:9735".to_string());
    assert_eq!(DaemonId::from_bytes(&d.to_bytes(), true), d);
    let f = DaemonId::Foreign("wallet".to_string());
    assert_eq!(DaemonId::from_bytes(&f.to_bytes(), false), f);
}
