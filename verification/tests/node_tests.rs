use iroh_ffi::{
    apply_options, ConnType, ConnectionType, DirectAddrInfo, DiscoveryMode, IrohError,
    NodeDiscoveryConfig, NodeOptions,
};

#[test]
fn test_default_options() {
    let options = NodeOptions::default();
    assert_eq!(options.gc_interval_millis, Some(0));
    assert!(!options.enable_docs);
    assert!(options.ipv4_addr.is_none());
    assert!(options.ipv6_addr.is_none());
    assert!(options.node_discovery.is_none());
    assert!(options.secret_key.is_none());
    assert!(options.protocols.is_none());
}

#[test]
fn test_apply_options_gc_period() {
    // 0 and "not set" both disable gc; anything else is kept.
    let mut options = NodeOptions::default();
    options.gc_interval_millis = Some(0);
    assert_eq!(apply_options(options).unwrap().gc_period_millis, None);

    let mut options = NodeOptions::default();
    options.gc_interval_millis = None;
    assert_eq!(apply_options(options).unwrap().gc_period_millis, None);

    let mut options = NodeOptions::default();
    options.gc_interval_millis = Some(1500);
    assert_eq!(apply_options(options).unwrap().gc_period_millis, Some(1500));
}

#[test]
fn test_apply_options_discovery() {
    let mut options = NodeOptions::default();
    options.node_discovery = Some(NodeDiscoveryConfig::Disabled);
    assert_eq!(apply_options(options).unwrap().discovery, DiscoveryMode::StaticOnly);

    let mut options = NodeOptions::default();
    options.node_discovery = Some(NodeDiscoveryConfig::Default);
    assert_eq!(
        apply_options(options).unwrap().discovery,
        DiscoveryMode::DefaultAndStatic
    );

    let options = NodeOptions::default();
    assert_eq!(
        apply_options(options).unwrap().discovery,
        DiscoveryMode::DefaultAndStatic
    );
}

#[test]
fn test_apply_options_secret_key() {
    let mut options = NodeOptions::default();
    options.secret_key = Some(vec![9u8; 32]);
    let plan = apply_options(options).unwrap();
    assert_eq!(plan.secret_key, Some(vec![9u8; 32]));

    let mut options = NodeOptions::default();
    options.secret_key = Some(vec![9u8; 31]);
    assert_eq!(apply_options(options), Err(IrohError::InvalidSecretKey));
}

#[test]
fn test_apply_options_custom_protocols() {
    let mut options = NodeOptions::default();
    options.enable_docs = true;
    options.protocols = Some(vec![b"my/proto/1".to_vec()]);
    let plan = apply_options(options).unwrap();
    assert!(plan.enable_docs);
    assert_eq!(plan.custom_tags, vec![b"my/proto/1".to_vec()]);
}

#[test]
fn test_connection_type_accessors() {
    let direct = ConnectionType::Direct("192.0.2.7:4433".to_string());
    assert!(matches!(direct.kind(), ConnType::Direct));
    assert_eq!(direct.as_direct(), "192.0.2.7:4433");

    let relay = ConnectionType::Relay("https://relay.example".to_string());
    assert!(matches!(relay.kind(), ConnType::Relay));
    assert_eq!(relay.as_relay(), "https://relay.example");

    let mixed = ConnectionType::Mixed(
        "192.0.2.7:4433".to_string(),
        "https://relay.example".to_string(),
    );
    assert!(matches!(mixed.kind(), ConnType::Mixed));
    let parts = mixed.as_mixed();
    assert_eq!(parts.addr, "192.0.2.7:4433");
    assert_eq!(parts.relay_url, "https://relay.example");

    assert!(matches!(ConnectionType::NotConnected.kind(), ConnType::NotConnected));
}

#[test]
fn test_direct_addr_info() {
    let info = DirectAddrInfo::new(
        "192.0.2.7:4433".to_string(),
        Some(12),
        Some((9, "pong".to_string())),
        None,
    );
    assert_eq!(info.addr(), "192.0.2.7:4433");
    assert_eq!(info.latency(), Some(12));
    let control = info.last_control().unwrap();
    assert_eq!(control.latency_millis, 9);
    assert_eq!(control.control_msg, "pong");
    assert_eq!(info.last_payload(), None);

    let bare = DirectAddrInfo::new("10.0.0.1:1".to_string(), None, None, Some(44));
    assert!(bare.last_control().is_none());
    assert_eq!(bare.last_payload(), Some(44));
}
