use lnp_node::link::{bridge_route, pong_reply, BridgeMsg, BridgeRoute, LinkError, PeerLink, PongCheck};

#[test]
fn ping_then_refuse_until_pong() {
    let mut link = PeerLink::new();
    let ping = link.prepare_ping().unwrap();
    assert!(ping.ignored.len() >= 4 && ping.ignored.len() < 32);
    assert!(ping.pong_size >= 4 && ping.pong_size < 32);
    link.ping_sent(ping.pong_size);
    assert_eq!(link.prepare_ping(), Err(LinkError::NotResponding));
    assert_eq!(link.pong_received(ping.pong_size as usize), PongCheck::Expected);
    assert!(link.prepare_ping().is_ok());
}

#[test]
fn pong_checks() {
    let mut link = PeerLink::new();
    assert_eq!(link.pong_received(5), PongCheck::Unexpected);
    link.ping_sent(10);
    assert_eq!(link.pong_received(9), PongCheck::SizeMismatch);
    assert_eq!(link.awaited_pong, None);
}

#[test]
fn pong_reply_has_requested_size() {
    assert_eq!(pong_reply(0).len(), 0);
    assert_eq!(pong_reply(17).len(), 17);
}

#[test]
fn bridge_routes() {
    assert_eq!(bridge_route(BridgeMsg::PingPeer), BridgeRoute::Ping);
    assert_eq!(bridge_route(BridgeMsg::PeerPing { pong_size: 8 }), BridgeRoute::Pong(8));
    assert_eq!(bridge_route(BridgeMsg::PeerPong { len: 3 }), BridgeRoute::CheckPong(3));
    assert_eq!(bridge_route(BridgeMsg::PeerOpenChannel), BridgeRoute::ForwardToLnpd);
    assert_eq!(bridge_route(BridgeMsg::PeerOther), BridgeRoute::Log);
    assert_eq!(bridge_route(BridgeMsg::Other), BridgeRoute::NotSupported);
}

use lnp_node::link::{ctl_bus_action, msg_bus_action, on_listener_error, BusAction, BusRequest, ListenerAction};

#[test]
fn listener_and_bus_actions() {
    assert_eq!(on_listener_error(true), ListenerAction::PingPeer);
    assert_eq!(on_listener_error(false), ListenerAction::Halt);
    assert_eq!(msg_bus_action(BusRequest::PeerMessage), BusAction::Forward);
    assert_eq!(msg_bus_action(BusRequest::PingPeer), BusAction::NotSupported);
    assert_eq!(ctl_bus_action(BusRequest::PingPeer), BusAction::Ping);
    assert_eq!(ctl_bus_action(BusRequest::PeerMessage), BusAction::NotSupported);
}
