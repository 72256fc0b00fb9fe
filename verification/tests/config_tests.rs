use ae2_lanuis_client_lib::config::{get_connection_config, ConnectionConfig};
use ae2_lanuis_client_lib::CONNECTION_CONFIG_FILE;

fn sample() -> ConnectionConfig {
    ConnectionConfig {
        server_host: "mc.example.org".to_string(),
        server_port: 9000,
        protocol: "https".to_string(),
        account: "Steve".to_string(),
    }
}

#[test]
fn default_config_is_local_http_server() {
    let c = ConnectionConfig::default();
    assert_eq!(c.server_host, "127.0.0.1");
    assert_eq!(c.server_port, 8765);
    assert_eq!(c.protocol, "http");
    assert_eq!(c.account, "");
}

#[test]
fn missing_file_gives_defaults() {
    let c = get_connection_config(None).unwrap();
    assert_eq!(c.server_host, "127.0.0.1");
    assert_eq!(c.server_port, 8765);
    assert_eq!(c.protocol, "http");
    assert_eq!(c.account, "");
}

#[test]
fn stored_config_is_read_back() {
    let c = get_connection_config(Some(Ok(sample()))).unwrap();
    assert_eq!(c.server_host, "mc.example.org");
    assert_eq!(c.server_port, 9000);
    assert_eq!(c.protocol, "https");
    assert_eq!(c.account, "Steve");
}

#[test]
fn unreadable_file_gives_its_error() {
    let e = get_connection_config(Some(Err("expected value at line 1 column 1".to_string())))
        .unwrap_err();
    assert_eq!(e, "expected value at line 1 column 1");
}

#[test]
fn config_file_name() {
    assert_eq!(CONNECTION_CONFIG_FILE, "connection.json");
}
