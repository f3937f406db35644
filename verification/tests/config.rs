use lnp_node::config::{default_electrum_port, electrum_url, Chain, LogLevel, MessageFilter, DiskConfig};

#[test]
fn log_level_from_verbosity() {
    assert_eq!(LogLevel::from_verbosity(0), LogLevel::Error);
    assert_eq!(LogLevel::from_verbosity(1), LogLevel::Warn);
    assert_eq!(LogLevel::from_verbosity(2), LogLevel::Info);
    assert_eq!(LogLevel::from_verbosity(3), LogLevel::Debug);
    assert_eq!(LogLevel::from_verbosity(4), LogLevel::Trace);
    assert_eq!(LogLevel::from_verbosity(200), LogLevel::Trace);
    assert_eq!(LogLevel::from_u8(5), None);
    assert_eq!(LogLevel::Info.to_u8(), 2);
}

#[test]
fn log_level_names() {
    assert_eq!(LogLevel::Error.filter(), "error");
    assert_eq!(LogLevel::Warn.filter(), "warn");
    assert_eq!(LogLevel::Info.filter(), "info");
    assert_eq!(LogLevel::Debug.filter(), "debug");
    assert_eq!(LogLevel::Trace.filter(), "trace");
    assert_eq!(LogLevel::Debug.to_display_string(), "Debug");
}

#[test]
fn electrum_ports() {
    assert_eq!(default_electrum_port(&Chain::Mainnet), 50001);
    assert_eq!(default_electrum_port(&Chain::Testnet3), 60001);
    assert_eq!(default_electrum_port(&Chain::Regtest), 60001);
    assert_eq!(default_electrum_port(&Chain::Signet), 60601);
    assert_eq!(default_electrum_port(&Chain::SignetCustom), 60601);
    assert_eq!(default_electrum_port(&Chain::LiquidV1), 50501);
    assert_eq!(default_electrum_port(&Chain::Other), 60001);
}

#[test]
fn electrum_urls() {
    assert_eq!(electrum_url("electrum.blockstream.info", None, &Chain::Mainnet), "electrum.blockstream.info:50001");
    assert_eq!(electrum_url("localhost", Some(1234), &Chain::Signet), "localhost:1234");
}

#[test]
fn plain_config_types() {
    let d = DiskConfig { path: "/tmp".to_string() };
    assert_eq!(d.clone(), d);
    assert_eq!(MessageFilter::default(), MessageFilter {});
}

use lnp_node::config::{merge_cli_config, replace_str, substitute_param, CliConfig};

#[test]
fn replaces_left_to_right() {
    assert_eq!(replace_str("aaa", "aa", "b"), "ba");
    assert_eq!(replace_str("xyz", "q", "r"), "xyz");
    assert_eq!(replace_str("", "a", "b"), "");
    assert_eq!(replace_str("héllo wörld", "ö", "o"), "héllo world");
}

#[test]
fn substitutes_params() {
    assert_eq!(substitute_param("{data_dir}/lnpd.toml", "/var/lib/lnp", "02ab"), "/var/lib/lnp/lnpd.toml");
    assert_eq!(substitute_param("{data_dir}/{node_id}.key", "/d", "id"), "/d/id.key");
    // the node id is substituted after the data dir
    assert_eq!(substitute_param("{data_dir}", "{node_id}", "X"), "X");
}

#[test]
fn merges_cli_config() {
    let read = CliConfig { node_key: [1u8; 32], data_dir: "/old".to_string(), log_level: LogLevel::Warn, endpoint: "tcp://a".to_string() };
    let m = merge_cli_config(read.clone(), None, 0, None).unwrap();
    assert_eq!(m.data_dir, "/old");
    let m = merge_cli_config(read.clone(), Some("/new".to_string()), 0, None).unwrap();
    assert_eq!(m.data_dir, "/new");
    assert_eq!(m.log_level, LogLevel::Warn);
    assert_eq!(m.endpoint, "tcp://a");
    let m = merge_cli_config(read.clone(), Some("/new".to_string()), 3, Some("tcp://b".to_string())).unwrap();
    assert_eq!(m.log_level, LogLevel::Debug);
    assert_eq!(m.endpoint, "tcp://b");
    assert_eq!(m.node_key, [1u8; 32]);
}

#[test]
fn merge_substitutes_endpoint() {
    let read = CliConfig { node_key: [1u8; 32], data_dir: "/old".to_string(), log_level: LogLevel::Warn, endpoint: "tcp://a".to_string() };
    let key = bitcoin::secp256k1::SecretKey::from_slice(&[1u8; 32]).unwrap();
    let id = bitcoin::secp256k1::PublicKey::from_secret_key(&bitcoin::secp256k1::Secp256k1::new(), &key).to_string();
    let m = merge_cli_config(read.clone(), None, 0, Some("ipc:{data_dir}/{node_id}".to_string())).unwrap();
    assert_eq!(m.endpoint, format!("ipc:/old/{}", id));
    assert_eq!(id.len(), 66);
    let bad = CliConfig { node_key: [0u8; 32], ..read };
    assert_eq!(merge_cli_config(bad.clone(), None, 0, Some("x".to_string())), Err(CliConfigError::InvalidNodeKey));
    assert!(merge_cli_config(bad, None, 0, None).is_ok());
}

use lnp_node::config::{channel_dir, channel_file, ctl_endpoint, CliConfigError, Endpoint};

#[test]
fn control_endpoint() {
    assert_eq!(ctl_endpoint(true, Endpoint::Socket("tcp://0.0.0.0:1".to_string())), Endpoint::Inproc("lnp-ctl".to_string()));
    assert_eq!(ctl_endpoint(false, Endpoint::Socket("tcp://0.0.0.0:1".to_string())), Endpoint::Socket("tcp://0.0.0.0:1".to_string()));
}

#[test]
fn channel_paths() {
    assert_eq!(channel_dir("/var/lib/lnp"), "/var/lib/lnp/channels");
    assert_eq!(channel_dir("/var/lib/lnp/"), "/var/lib/lnp/channels");
    assert_eq!(channel_file("/d", "abcd"), "/d/channels/abcd.channel");
    assert_eq!(channel_file("", "ab"), "channels/ab.channel");
}

use lnp_node::config::rust_log_filter;

#[test]
fn rust_log_only_when_unset() {
    assert_eq!(rust_log_filter(true, LogLevel::Info), None);
    assert_eq!(rust_log_filter(false, LogLevel::Info), Some("info"));
}
