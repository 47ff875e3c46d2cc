use socks5_server::codec::Address;
use socks5_server::config::{AuthMode, ConfigError, Dispatch, ServerConfig};
use socks5_server::handshake::{credentials_match, negotiate, HandshakeError, Method};
use socks5_server::reply::ReplyStatus;
use socks5_server::request::Command;
use socks5_server::session::{
    on_connected, on_credentials, on_greeting, on_relay_end, on_request, on_resolved,
    on_udp_bound, start_phase, Action, ConnectFailure, Phase, RelayEnd,
};

fn no_auth() -> ServerConfig {
    ServerConfig {
        auth: AuthMode::NoAuth,
        skip_auth: false,
        allow_udp: false,
        public_ip: None,
        request_timeout: 10,
    }
}

fn password() -> ServerConfig {
    ServerConfig {
        auth: AuthMode::Password { username: b"admin".to_vec(), password: b"secret".to_vec() },
        skip_auth: false,
        allow_udp: false,
        public_ip: None,
        request_timeout: 10,
    }
}

fn sent(a: &Action) -> Vec<u8> {
    match a {
        Action::Send(v) | Action::SendAndClose(v) | Action::SendAndRelay(v) => v.clone(),
        _ => panic!("no bytes to send"),
    }
}

fn credentials(u: &[u8], p: &[u8]) -> Vec<u8> {
    let mut m = vec![1, u.len() as u8];
    m.extend_from_slice(u);
    m.push(p.len() as u8);
    m.extend_from_slice(p);
    m
}

#[test]
fn config_validation() {
    let mut c = no_auth();
    assert!(c.validate().is_ok());
    c.allow_udp = true;
    assert_eq!(c.validate().unwrap_err(), ConfigError::UdpWithoutPublicAddr);
    c.public_ip = Some(vec![127, 0, 0, 1]);
    assert!(c.validate().is_ok());
    c.public_ip = Some(vec![1, 2]);
    assert_eq!(c.validate().unwrap_err(), ConfigError::BadPublicAddr);
    let mut p = password();
    p.skip_auth = true;
    assert_eq!(p.validate().unwrap_err(), ConfigError::SkipAuthWithPassword);
}

#[test]
fn skip_auth_starts_at_the_request() {
    let mut c = no_auth();
    assert_eq!(start_phase(&c), Phase::Greeting);
    c.skip_auth = true;
    assert_eq!(start_phase(&c), Phase::Request);
}

#[test]
fn negotiation_picks_server_preference() {
    let both = [Method::Password, Method::NoAuth];
    assert_eq!(negotiate(&[5, 2, 0, 2], &both).unwrap(), Method::Password);
    assert_eq!(negotiate(&[5, 1, 0], &both).unwrap(), Method::NoAuth);
    assert_eq!(negotiate(&[5, 1, 1], &both).unwrap_err(), HandshakeError::NoAcceptableMethod);
    assert_eq!(negotiate(&[4, 1, 0], &both).unwrap_err(), HandshakeError::UnsupportedVersion(4));
    assert_eq!(negotiate(&[5, 2, 0], &both).unwrap_err(), HandshakeError::Truncated);
}

#[test]
fn greeting_no_auth_selected() {
    let s = on_greeting(&no_auth(), &[5, 2, 1, 0]);
    assert_eq!(s.phase, Phase::Request);
    assert_eq!(sent(&s.action), vec![5, 0]);
    assert_eq!(s.consumed, 4);
}

#[test]
fn greeting_only_unsupported_method_is_refused() {
    let s = on_greeting(&no_auth(), &[5, 1, 1]);
    assert_eq!(s.phase, Phase::Closed);
    assert!(matches!(s.action, Action::SendAndClose(_)));
    assert_eq!(sent(&s.action), vec![5, 0xff]);
    let s = on_greeting(&password(), &[5, 1, 0]);
    assert_eq!(s.phase, Phase::Closed);
    assert_eq!(sent(&s.action), vec![5, 0xff]);
}

#[test]
fn greeting_incomplete_or_wrong_version() {
    let s = on_greeting(&no_auth(), &[5, 3, 0]);
    assert_eq!(s.phase, Phase::Greeting);
    assert!(matches!(s.action, Action::ReadMore));
    let s = on_greeting(&no_auth(), &[4, 1, 0]);
    assert_eq!(s.phase, Phase::Closed);
    assert!(matches!(s.action, Action::Close));
}

#[test]
fn password_accepted() {
    let s = on_greeting(&password(), &[5, 2, 0, 2]);
    assert_eq!(s.phase, Phase::Credentials);
    assert_eq!(sent(&s.action), vec![5, 2]);
    let msg = credentials(b"admin", b"secret");
    let s = on_credentials(&password(), &msg);
    assert_eq!(s.phase, Phase::Request);
    assert_eq!(sent(&s.action), vec![1, 0]);
    assert_eq!(s.consumed, msg.len());
}

#[test]
fn password_rejected_closes() {
    let s = on_credentials(&password(), &credentials(b"admin", b"wrong"));
    assert_eq!(s.phase, Phase::Closed);
    assert!(matches!(s.action, Action::SendAndClose(_)));
    assert_eq!(sent(&s.action), vec![1, 0xff]);
    let s = on_credentials(&password(), &credentials(b"root", b"secret"));
    assert_eq!(s.phase, Phase::Closed);
}

#[test]
fn empty_username_closes_without_reply() {
    let s = on_credentials(&password(), &[1, 0, 1, b'x']);
    assert_eq!(s.phase, Phase::Closed);
    assert!(matches!(s.action, Action::Close));
    let s = on_credentials(&password(), &[1, 5, b'a']);
    assert!(matches!(s.action, Action::ReadMore));
}

#[test]
fn credential_comparison_is_exact() {
    assert!(credentials_match(b"a", b"b", b"a", b"b"));
    assert!(!credentials_match(b"a", b"b", b"a", b"bb"));
    assert!(!credentials_match(b"A", b"b", b"a", b"b"));
}

#[test]
fn request_goes_to_resolution() {
    let s = on_request(&[5, 1, 0, 1, 127, 0, 0, 1, 0, 80, 42]);
    assert_eq!(s.phase, Phase::Resolving(Command::Connect));
    assert!(matches!(s.action, Action::Resolve(Address::Ipv4 { port: 80, .. })));
    assert_eq!(s.consumed, 10);
}

#[test]
fn bad_requests_get_a_reply() {
    let s = on_request(&[5, 1, 0, 9, 0, 0]);
    assert_eq!(sent(&s.action), vec![5, 8, 0, 1, 0, 0, 0, 0, 0, 0]);
    let s = on_request(&[5, 7, 0, 1, 1, 1, 1, 1, 0, 80]);
    assert_eq!(sent(&s.action), vec![5, 7, 0, 1, 0, 0, 0, 0, 0, 0]);
    let s = on_request(&[6, 1, 0, 1, 1, 1, 1, 1, 0, 80]);
    assert_eq!(sent(&s.action), vec![5, 1, 0, 1, 0, 0, 0, 0, 0, 0]);
    let s = on_request(&[5, 1, 0, 1, 1]);
    assert!(matches!(s.action, Action::ReadMore));
}

#[test]
fn resolution_failure_is_host_unreachable() {
    let s = on_resolved(&no_auth(), Command::Connect, None);
    assert_eq!(s.phase, Phase::Closed);
    assert_eq!(sent(&s.action), vec![5, 4, 0, 1, 0, 0, 0, 0, 0, 0]);
}

#[test]
fn connect_is_relayed_and_bind_refused() {
    let a = Address::Ipv4 { ip: vec![1, 2, 3, 4], port: 22 };
    let s = on_resolved(&no_auth(), Command::Connect, Some(a.clone()));
    assert_eq!(s.phase, Phase::Connecting);
    assert!(matches!(s.action, Action::Connect(Address::Ipv4 { port: 22, .. })));
    let s = on_resolved(&no_auth(), Command::Bind, Some(a));
    assert_eq!(sent(&s.action), vec![5, 7, 0, 1, 0, 0, 0, 0, 0, 0]);
}

#[test]
fn udp_without_public_address_is_not_supported() {
    let mut c = no_auth();
    c.allow_udp = true;
    assert_eq!(c.dispatch(Command::UdpAssociate), Dispatch::Refuse(ReplyStatus::CommandNotSupported));
    let a = Address::Ipv4 { ip: vec![0, 0, 0, 0], port: 0 };
    let s = on_resolved(&c, Command::UdpAssociate, Some(a));
    assert_eq!(s.phase, Phase::Closed);
    assert_eq!(sent(&s.action), vec![5, 7, 0, 1, 0, 0, 0, 0, 0, 0]);
}

#[test]
fn udp_happy_path_reports_public_address() {
    let mut c = no_auth();
    c.allow_udp = true;
    c.public_ip = Some(vec![203, 0, 113, 5]);
    let a = Address::Ipv4 { ip: vec![0, 0, 0, 0], port: 0 };
    let s = on_resolved(&c, Command::UdpAssociate, Some(a));
    assert_eq!(s.phase, Phase::UdpBinding);
    assert!(matches!(s.action, Action::BindUdp));
    let s = on_udp_bound(&c, Some(5000));
    assert_eq!(s.phase, Phase::UdpRelaying);
    assert_eq!(sent(&s.action), vec![5, 0, 0, 1, 203, 0, 113, 5, 0x13, 0x88]);
    let s = on_udp_bound(&c, None);
    assert_eq!(sent(&s.action), vec![5, 1, 0, 1, 0, 0, 0, 0, 0, 0]);
}

#[test]
fn unreachable_destination_is_reported() {
    let s = on_connected(Err(ConnectFailure::HostUnreachable));
    assert_eq!(s.phase, Phase::Closed);
    assert_eq!(sent(&s.action), vec![5, 4, 0, 1, 0, 0, 0, 0, 0, 0]);
    let s = on_connected(Err(ConnectFailure::NetworkUnreachable));
    assert_eq!(sent(&s.action), vec![5, 3, 0, 1, 0, 0, 0, 0, 0, 0]);
    let s = on_connected(Err(ConnectFailure::Refused));
    assert_eq!(sent(&s.action), vec![5, 5, 0, 1, 0, 0, 0, 0, 0, 0]);
    let s = on_connected(Err(ConnectFailure::TimedOut));
    assert_eq!(sent(&s.action), vec![5, 1, 0, 1, 0, 0, 0, 0, 0, 0]);
}

#[test]
fn connected_replies_success_with_bound_address() {
    let bound = Address::Ipv6 { ip: vec![0; 16], port: 7 };
    let s = on_connected(Ok(bound));
    assert_eq!(s.phase, Phase::Relaying);
    let mut expected = vec![5, 0, 0, 4];
    expected.extend_from_slice(&[0; 16]);
    expected.extend_from_slice(&[0, 7]);
    assert_eq!(sent(&s.action), expected);
}

#[test]
fn idle_timeout_tears_down_the_relay() {
    let s = on_relay_end(Phase::Relaying, RelayEnd::IdleTimeout);
    assert_eq!(s.phase, Phase::Closed);
    assert!(matches!(s.action, Action::Close));
    let s = on_relay_end(Phase::UdpRelaying, RelayEnd::PeerClosed);
    assert_eq!(s.phase, Phase::Closed);
}
