use lnp_node::addr::{conv_ip_port, ip_port_parts, split_protocol, IpPortParts, ListenAddrError};
use lnp_node::rpc::Protocol;

#[test]
fn listen_protocols() {
    assert_eq!(split_protocol("bolt://127.0.0.1:9735"), Ok((Protocol::Bolt, "127.0.0.1:9735".to_string())));
    assert_eq!(split_protocol("BiFrost://0.0.0.0"), Ok((Protocol::Bifrost, "0.0.0.0".to_string())));
}

#[test]
fn listen_unknown_protocols() {
    assert_eq!(split_protocol("Tor://x"), Err(ListenAddrError::UnknownProtocolError("tor".to_string())));
    assert_eq!(split_protocol("BOLT"), Err(ListenAddrError::UnknownProtocolError("bolt".to_string())));
    assert_eq!(split_protocol("bolt://a://b"), Err(ListenAddrError::UnknownProtocolError("bolt".to_string())));
    assert_eq!(split_protocol(""), Err(ListenAddrError::UnknownProtocolError("".to_string())));
}

#[test]
fn ip_port_splitting() {
    assert_eq!(
        ip_port_parts("1.2.3.4"),
        IpPortParts { ip: "1.2.3.4".to_string(), port: None, extra: false }
    );
    assert_eq!(
        ip_port_parts("1.2.3.4:80"),
        IpPortParts { ip: "1.2.3.4".to_string(), port: Some("80".to_string()), extra: false }
    );
    assert_eq!(
        ip_port_parts("::1"),
        IpPortParts { ip: "".to_string(), port: Some("".to_string()), extra: true }
    );
}

#[test]
fn ip_port_conversion() {
    let ok = ip_port_parts("1.2.3.4:80");
    assert_eq!(conv_ip_port(&ok, true, 9735), Ok(80));
    assert_eq!(conv_ip_port(&ok, false, 9735), Err("The provided IP address is invalid".to_string()));
    let default = ip_port_parts("1.2.3.4");
    assert_eq!(conv_ip_port(&default, true, 9735), Ok(9735));
    let big = ip_port_parts("1.2.3.4:70000");
    assert_eq!(conv_ip_port(&big, true, 9735), Err("The provided value for port (70000) is invalid".to_string()));
    let extra = ip_port_parts("1.2.3.4:80:1");
    assert_eq!(
        conv_ip_port(&extra, true, 9735),
        Err("The provided string neither represents IPv4 nor IPv6 address".to_string())
    );
}

use lnp_node::addr::conv_pubkey;

#[test]
fn pubkey_conversion() {
    let text = "0279be667ef9dcbbac55a06295ce870b07029bfcdb2dce28d959f2815b16f81798";
    let key = conv_pubkey(text).unwrap();
    assert_eq!(key[0], 0x02);
    assert_eq!(key[1], 0x79);
    assert_eq!(key[32], 0x98);
    assert_eq!(conv_pubkey("zz"), Err("The provided string does not correspond to a pubkey".to_string()));
}

use lnp_node::rpc::ListenAddr;

#[test]
fn listen_addr_text_reads_back() {
    let a = ListenAddr { protocol: Protocol::Bolt, ip_addr: "127.0.0.1".to_string(), port: 9735 };
    assert_eq!(a.to_display_string(9735), "bolt://127.0.0.1");
    let b = ListenAddr { protocol: Protocol::Bifrost, ip_addr: "10.0.0.2".to_string(), port: 1234 };
    let text = b.to_display_string(9735);
    assert_eq!(text, "bifrost://10.0.0.2:1234");
    let (p, rest) = split_protocol(&text).unwrap();
    assert_eq!(p, Protocol::Bifrost);
    let parts = ip_port_parts(&rest);
    assert_eq!(parts.ip, "10.0.0.2");
    assert_eq!(conv_ip_port(&parts, true, 9735), Ok(1234));
}
