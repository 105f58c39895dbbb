use mpmp::common::config::{listen_host, Config};
use mpmp::common::crypto::{ssl_start_client, ssl_start_server};
use mpmp::common::error::Error;
use mpmp::common::socket::ConnectionRole;
use std::io::Cursor;

#[test]
fn config_from_the_environment_value() {
    let c = Config::new(Some("example.org:8015".to_string())).unwrap();
    assert_eq!(c.get_host(), "example.org:8015");
    assert!(matches!(
        Config::new(None),
        Err("Failed to obtain MPMP_HOST environment var")
    ));
}

#[test]
fn listen_host_falls_back() {
    let c = Config::new(Some("127.0.0.1:9000".to_string()));
    assert_eq!(listen_host(&c), "127.0.0.1:9000");
    assert_eq!(listen_host(&Config::new(None)), "0.0.0.0:8015");
}

#[test]
fn handshake_with_no_peer_fails() {
    // An empty stream: the peer hangs up at once.
    let r = ssl_start_client(Cursor::new(Vec::<u8>::new()));
    assert!(matches!(r, Err(Error::MiscError(_))));
    let r = ssl_start_server(Cursor::new(Vec::<u8>::new()));
    assert!(matches!(r, Err(Error::MiscError(_))));
}

#[test]
fn io_errors_convert() {
    let e: Error = std::io::Error::new(std::io::ErrorKind::Other, "x").into();
    assert!(matches!(e, Error::IOError(_)));
    assert_ne!(ConnectionRole::Client, ConnectionRole::Server);
}
