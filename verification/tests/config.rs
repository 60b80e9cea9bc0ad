use rustlink::comms::LinkCommType;
use rustlink::config::{LinkConfig, PprzMsgClassID, PprzProtocolVersion};

fn config_with(udp: bool, remote_addr: &str, udp_uplink_port: u16) -> LinkConfig {
    LinkConfig {
        ping_period: 1000,
        status_period: 500,
        baudrate: 57600,
        port: String::from("/dev/ttyUSB0"),
        udp,
        udp_port: 4243,
        udp_uplink_port,
        pprzlink_version: PprzProtocolVersion::ProtocolV2,
        ivy_bus: String::from("127.255.255.255:2010"),
        pprz_root: String::from("/opt/protocol"),
        remote_addr: String::from(remote_addr),
        sender_id: String::from("ground"),
        rx_msg_class: PprzMsgClassID::Telemetry,
    }
}

#[test]
fn medium_follows_the_flag() {
    assert_eq!(config_with(true, "127.0.0.1", 4242).medium(), LinkCommType::Udp);
    assert_eq!(config_with(false, "127.0.0.1", 4242).medium(), LinkCommType::Serial);
}

#[test]
fn remote_endpoint_joins_address_and_port() {
    assert_eq!(config_with(true, "192.168.1.10", 4242).remote_endpoint(), "192.168.1.10:4242");
    assert_eq!(config_with(true, "localhost", 80).remote_endpoint(), "localhost:80");
}

#[test]
fn remote_endpoint_writes_the_port_in_decimal() {
    assert_eq!(config_with(true, "h", 0).remote_endpoint(), "h:0");
    assert_eq!(config_with(true, "h", 7).remote_endpoint(), "h:7");
    assert_eq!(config_with(true, "h", 10).remote_endpoint(), "h:10");
    assert_eq!(config_with(true, "h", 99).remote_endpoint(), "h:99");
    assert_eq!(config_with(true, "h", 100).remote_endpoint(), "h:100");
    assert_eq!(config_with(true, "h", 1001).remote_endpoint(), "h:1001");
    assert_eq!(config_with(true, "h", 65535).remote_endpoint(), "h:65535");
}

#[test]
fn remote_endpoint_agrees_with_the_standard_notation() {
    for port in [0u16, 1, 9, 10, 11, 255, 256, 1000, 9999, 10000, 32768, 65534, 65535] {
        let config = config_with(true, "10.0.0.1", port);
        assert_eq!(config.remote_endpoint(), format!("10.0.0.1:{}", port));
    }
}

#[test]
fn remote_endpoint_keeps_the_address_as_it_is() {
    assert_eq!(config_with(true, "", 5).remote_endpoint(), ":5");
    assert_eq!(config_with(true, "fe80::1", 2010).remote_endpoint(), "fe80::1:2010");
    let config = config_with(false, "peer", 1);
    assert_eq!(config.remote_endpoint(), "peer:1");
    assert_eq!(config.remote_addr, "peer");
}
