use sqlx_core::connection::{Connection, ConnectOptions, MemoryConnectOptions, MemoryConnection};
use sqlx_core::error::Error;

#[test]
fn connect_rejects_malformed_url() {
    let r = MemoryConnection::connect("invalid://???");
    assert!(matches!(r, Err(Error::UrlParseError)));
}

#[test]
fn connect_rejects_empty_target() {
    let r = MemoryConnection::connect("memory://");
    assert!(matches!(r, Err(Error::UrlParseError)));
}

#[test]
fn connect_rejects_bad_target_character() {
    let r = MemoryConnection::connect("memory://a b");
    assert!(matches!(r, Err(Error::UrlParseError)));
}

#[test]
fn fresh_session_pings() {
    let mut session = MemoryConnection::connect("memory://primary").unwrap();
    assert!(session.ping().is_ok());
    assert!(session.ping().is_ok());
}

#[test]
fn close_succeeds_and_consumes() {
    let session = MemoryConnection::connect("memory://primary").unwrap();
    assert_eq!(session.close(), Ok(()));
}

#[test]
fn severed_session_fails_ping() {
    let mut session = MemoryConnection::connect("memory://primary").unwrap();
    session.sever();
    assert!(matches!(session.ping(), Err(Error::ConnectionLostError)));
}

#[test]
fn options_parse_then_connect() {
    let options = MemoryConnectOptions::from_url("memory://replica-2.example").unwrap();
    assert_eq!(options.target(), "replica-2.example");
    let mut session = options.connect().unwrap();
    assert!(session.ping().is_ok());
    assert_eq!(session.close(), Ok(()));
}

#[test]
fn options_reject_wrong_scheme() {
    assert!(matches!(
        MemoryConnectOptions::from_url("postgres://primary"),
        Err(Error::UrlParseError)
    ));
}
