use chat_bridge::error::Error;
use chat_bridge::settings::{Database, LevelFilter, Log, Server};

#[test]
fn level_filter_by_name() {
    let level = |s: &str| Log { level: s.to_string() }.get_level_filter();
    assert_eq!(level("error"), LevelFilter::Error);
    assert_eq!(level("warn"), LevelFilter::Warn);
    assert_eq!(level("info"), LevelFilter::Info);
    assert_eq!(level("debug"), LevelFilter::Debug);
    assert_eq!(level("trace"), LevelFilter::Trace);
    assert_eq!(level("verbose"), LevelFilter::Info);
    assert_eq!(level("ERROR"), LevelFilter::Info);
}

#[test]
fn server_address_joins_ip_and_port() {
    let s = Server { port: 8080, ip: "127.0.0.1".to_string() };
    assert_eq!(s.get_ip(), "127.0.0.1:8080");
    let s = Server { port: 0, ip: "0.0.0.0".to_string() };
    assert_eq!(s.get_ip(), "0.0.0.0:0");
    let s = Server { port: u32::MAX, ip: "h".to_string() };
    assert_eq!(s.get_ip(), "h:4294967295");
}

#[test]
fn ca_path_is_under_config_dir() {
    let d = Database {
        host: String::new(),
        username: String::new(),
        password: String::new(),
        database: String::new(),
        max_connections: 1,
        ssl_ca_name: "ca.pem".to_string(),
    };
    assert_eq!(d.ssl_ca_path(), "./config/ca.pem");
}

#[test]
fn error_status_codes() {
    assert_eq!(Error::InvalidSignature.status_code(), 400);
    assert_eq!(Error::UnsupportedModel.status_code(), 400);
    assert_eq!(Error::NotFound.status_code(), 500);
    assert_eq!(Error::HttpError(String::new()).status_code(), 500);
    assert_eq!(Error::DatabaseError(String::new()).status_code(), 500);
}
