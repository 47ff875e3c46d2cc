use vstd::prelude::*;
use crate::codec::{Address, AddrSpec, encode_error};
use crate::config::{AuthMode, Dispatch, ServerConfig, dispatch_of};
use crate::handshake::{
    HandshakeError, Method, auth_reply, auth_status_frame, credentials_match, negotiate,
    negotiation, parse_credentials, read_credentials, selection_frame, selection_reply,
    CredentialsError, credentials_message, lemma_credentials_round_trip,
};
use crate::reply::ReplyStatus;
use crate::request::{
    Command, RequestError, encode_reply, error_status, failure_reply, parse_request, read_request,
    reply_frame, request_error_status, request_size, unspecified,
};

verus! {

/// Where a session stands.
#[derive(Clone, Copy, Debug, PartialEq, Eq, Structural)]
pub enum Phase {
    /// Waiting for the client's method list.
    Greeting,
    /// Waiting for the username/password message.
    Credentials,
    /// Waiting for the request.
    Request,
    /// Waiting for the destination of this command to be resolved.
    Resolving(Command),
    /// Waiting for the destination connection.
    Connecting,
    /// Waiting for the UDP relay socket.
    UdpBinding,
    /// Relaying the stream.
    Relaying,
    /// Relaying datagrams.
    UdpRelaying,
    /// Done: nothing more is read or written.
    Closed,
}

/// What the session asks its driver to do next.
pub enum Action {
    /// The frame is incomplete: read more bytes and call again.
    ReadMore,
    /// Write these bytes, then wait for the next frame.
    Send(Vec<u8>),
    /// Write these bytes, then close the connection.
    SendAndClose(Vec<u8>),
    /// Close the connection without writing.
    Close,
    /// Resolve this destination.
    Resolve(Address),
    /// Open a connection to this (resolved) destination.
    Connect(Address),
    /// Bind a fresh UDP socket on the public address.
    BindUdp,
    /// Write this success reply, then start relaying.
    SendAndRelay(Vec<u8>),
}

/// The next phase, the action, and the number of input bytes used up.
pub struct Step {
    pub phase: Phase,
    pub action: Action,
    pub consumed: usize,
}

/// Why the destination connection failed.
#[derive(Clone, Copy, Debug, PartialEq, Eq, Structural)]
pub enum ConnectFailure {
    Refused,
    NetworkUnreachable,
    HostUnreachable,
    TimedOut,
    Other,
}

/// The reply status of a failed destination connection.
pub open spec fn connect_failure_status(f: ConnectFailure) -> ReplyStatus {
    match f {
        ConnectFailure::Refused => ReplyStatus::ConnectionRefused,
        ConnectFailure::NetworkUnreachable => ReplyStatus::NetworkUnreachable,
        ConnectFailure::HostUnreachable => ReplyStatus::HostUnreachable,
        ConnectFailure::TimedOut => ReplyStatus::GeneralFailure,
        ConnectFailure::Other => ReplyStatus::GeneralFailure,
    }
}

/// The reply status of a failed destination connection.
pub fn failure_status(f: ConnectFailure) -> (r: ReplyStatus)
    ensures
        r == connect_failure_status(f),
{
    match f {
        ConnectFailure::Refused => ReplyStatus::ConnectionRefused,
        ConnectFailure::NetworkUnreachable => ReplyStatus::NetworkUnreachable,
        ConnectFailure::HostUnreachable => ReplyStatus::HostUnreachable,
        ConnectFailure::TimedOut => ReplyStatus::GeneralFailure,
        ConnectFailure::Other => ReplyStatus::GeneralFailure,
    }
}

/// The phase a fresh connection starts in.
pub fn start_phase(cfg: &ServerConfig) -> (r: Phase)
    ensures
        r == (if cfg.skip_auth {
            Phase::Request
        } else {
            Phase::Greeting
        }),
{
    if cfg.skip_auth {
        Phase::Request
    } else {
        Phase::Greeting
    }
}

/// The phase that follows a negotiated method.
pub open spec fn after_method(m: Method) -> Phase {
    match m {
        Method::NoAuth => Phase::Request,
        Method::Password => Phase::Credentials,
    }
}

/// Handles the bytes received so far in the greeting phase.
pub fn on_greeting(cfg: &ServerConfig, buf: &[u8]) -> (r: Step)
    ensures
        match negotiation(buf@, cfg.methods_spec()) {
            Ok(m) => r.phase == after_method(m) && r.action is Send && r.action->Send_0@
                == selection_frame(Some(m)) && r.consumed == 2 + buf@[1],
            Err(HandshakeError::Truncated) => r.phase == Phase::Greeting && r.action is ReadMore
                && r.consumed == 0,
            Err(HandshakeError::NoAcceptableMethod) => r.phase == Phase::Closed
                && r.action is SendAndClose && r.action->SendAndClose_0@ == selection_frame(None),
            Err(HandshakeError::UnsupportedVersion(_)) => r.phase == Phase::Closed
                && r.action is Close,
        },
{
    let methods = cfg.methods();
    match negotiate(buf, methods.as_slice()) {
        Ok(m) => {
            let phase = match m {
                Method::NoAuth => Phase::Request,
                Method::Password => Phase::Credentials,
            };
            Step { phase, action: Action::Send(selection_reply(Some(m))), consumed: 2 + buf[1] as usize }
        },
        Err(HandshakeError::Truncated) => Step {
            phase: Phase::Greeting,
            action: Action::ReadMore,
            consumed: 0,
        },
        Err(HandshakeError::NoAcceptableMethod) => Step {
            phase: Phase::Closed,
            action: Action::SendAndClose(selection_reply(None)),
            consumed: 0,
        },
        Err(HandshakeError::UnsupportedVersion(_)) => Step {
            phase: Phase::Closed,
            action: Action::Close,
            consumed: 0,
        },
    }
}

/// Whether the configuration accepts a username and password.
pub open spec fn accepts(cfg: &ServerConfig, u: Seq<u8>, p: Seq<u8>) -> bool {
    match &cfg.auth {
        AuthMode::Password { username, password } => u == username@ && p == password@,
        AuthMode::NoAuth => false,
    }
}

/// Handles the bytes received so far in the username/password phase.
pub fn on_credentials(cfg: &ServerConfig, buf: &[u8]) -> (r: Step)
    ensures
        match parse_credentials(buf@) {
            Ok((u, p)) => if accepts(cfg, u, p) {
                r.phase == Phase::Request && r.action is Send && r.action->Send_0@
                    == auth_status_frame(true) && r.consumed == 3 + u.len() + p.len()
            } else {
                r.phase == Phase::Closed && r.action is SendAndClose && r.action->SendAndClose_0@
                    == auth_status_frame(false)
            },
            Err(CredentialsError::Truncated) => r.phase == Phase::Credentials
                && r.action is ReadMore && r.consumed == 0,
            Err(_) => r.phase == Phase::Closed && r.action is Close,
        },
{
    match read_credentials(buf) {
        Ok(c) => {
            let ok = match &cfg.auth {
                AuthMode::Password { username, password } => credentials_match(
                    c.username.as_slice(),
                    c.password.as_slice(),
                    username.as_slice(),
                    password.as_slice(),
                ),
                AuthMode::NoAuth => false,
            };
            if ok {
                Step {
                    phase: Phase::Request,
                    action: Action::Send(auth_reply(true)),
                    consumed: 3 + c.username.len() + c.password.len(),
                }
            } else {
                Step { phase: Phase::Closed, action: Action::SendAndClose(auth_reply(false)), consumed: 0 }
            }
        },
        Err(CredentialsError::Truncated) => Step {
            phase: Phase::Credentials,
            action: Action::ReadMore,
            consumed: 0,
        },
        Err(_) => Step { phase: Phase::Closed, action: Action::Close, consumed: 0 },
    }
}

/// Handles the bytes received so far in the request phase.
pub fn on_request(buf: &[u8]) -> (r: Step)
    ensures
        match parse_request(buf@) {
            Ok((c, a)) => r.phase == Phase::Resolving(c) && r.action is Resolve
                && r.action->Resolve_0@ == a && r.consumed == request_size(buf@),
            Err(RequestError::Truncated) => r.phase == Phase::Request && r.action is ReadMore
                && r.consumed == 0,
            Err(e) => r.phase == Phase::Closed && r.action is SendAndClose
                && r.action->SendAndClose_0@ == reply_frame(
                request_error_status(e)->Some_0,
                unspecified(),
            ),
        },
{
    match read_request(buf) {
        Ok((c, a, n)) => Step { phase: Phase::Resolving(c), action: Action::Resolve(a), consumed: n },
        Err(RequestError::Truncated) => Step {
            phase: Phase::Request,
            action: Action::ReadMore,
            consumed: 0,
        },
        Err(e) => {
            let s = match error_status(e) {
                Some(s) => s,
                None => ReplyStatus::GeneralFailure,
            };
            Step { phase: Phase::Closed, action: Action::SendAndClose(failure_reply(s)), consumed: 0 }
        },
    }
}

/// Handles the outcome of resolving the destination of `cmd`: `None` where
/// resolution failed.
pub fn on_resolved(cfg: &ServerConfig, cmd: Command, resolved: Option<Address>) -> (r: Step)
    ensures
        r.consumed == 0,
        match resolved {
            None => r.phase == Phase::Closed && r.action is SendAndClose
                && r.action->SendAndClose_0@ == reply_frame(
                ReplyStatus::HostUnreachable,
                unspecified(),
            ),
            Some(a) => match dispatch_of(cmd, cfg.allow_udp, cfg.public_ip is Some) {
                Dispatch::TcpRelay => r.phase == Phase::Connecting && r.action is Connect
                    && r.action->Connect_0@ == a@,
                Dispatch::UdpRelay => r.phase == Phase::UdpBinding && r.action is BindUdp,
                Dispatch::Refuse(s) => r.phase == Phase::Closed && r.action is SendAndClose
                    && r.action->SendAndClose_0@ == reply_frame(s, unspecified()),
            },
        },
{
    match resolved {
        None => Step {
            phase: Phase::Closed,
            action: Action::SendAndClose(failure_reply(ReplyStatus::HostUnreachable)),
            consumed: 0,
        },
        Some(a) => match cfg.dispatch(cmd) {
            Dispatch::TcpRelay => Step { phase: Phase::Connecting, action: Action::Connect(a), consumed: 0 },
            Dispatch::UdpRelay => Step { phase: Phase::UdpBinding, action: Action::BindUdp, consumed: 0 },
            Dispatch::Refuse(s) => Step {
                phase: Phase::Closed,
                action: Action::SendAndClose(failure_reply(s)),
                consumed: 0,
            },
        },
    }
}

/// Handles the outcome of connecting to the destination: the local address
/// of the new connection, or why it failed.
pub fn on_connected(result: Result<Address, ConnectFailure>) -> (r: Step)
    ensures
        r.consumed == 0,
        match result {
            Ok(bound) => if encode_error(bound@) is None {
                r.phase == Phase::Relaying && r.action is SendAndRelay && r.action->SendAndRelay_0@
                    == reply_frame(ReplyStatus::Succeeded, bound@)
            } else {
                r.phase == Phase::Closed && r.action is SendAndClose && r.action->SendAndClose_0@
                    == reply_frame(ReplyStatus::GeneralFailure, unspecified())
            },
            Err(f) => r.phase == Phase::Closed && r.action is SendAndClose
                && r.action->SendAndClose_0@ == reply_frame(
                connect_failure_status(f),
                unspecified(),
            ),
        },
{
    match result {
        Ok(bound) => match encode_reply(ReplyStatus::Succeeded, &bound) {
            Ok(v) => Step { phase: Phase::Relaying, action: Action::SendAndRelay(v), consumed: 0 },
            Err(_) => Step {
                phase: Phase::Closed,
                action: Action::SendAndClose(failure_reply(ReplyStatus::GeneralFailure)),
                consumed: 0,
            },
        },
        Err(f) => Step {
            phase: Phase::Closed,
            action: Action::SendAndClose(failure_reply(failure_status(f))),
            consumed: 0,
        },
    }
}

/// The address a UDP relay reports: the public IP with the relay socket's port.
pub open spec fn udp_bound_addr(ip: Seq<u8>, port: u16) -> AddrSpec {
    if ip.len() == 4 {
        AddrSpec::Ipv4 { ip, port }
    } else {
        AddrSpec::Ipv6 { ip, port }
    }
}

/// Handles the outcome of binding the UDP relay socket: its port, or `None`
/// where binding failed.
pub fn on_udp_bound(cfg: &ServerConfig, port: Option<u16>) -> (r: Step)
    requires
        cfg.wf(),
    ensures
        r.consumed == 0,
        match (port, cfg.public_ip_view()) {
            (Some(p), Some(ip)) => r.phase == Phase::UdpRelaying && r.action is SendAndRelay
                && r.action->SendAndRelay_0@ == reply_frame(
                ReplyStatus::Succeeded,
                udp_bound_addr(ip, p),
            ),
            (Some(_), None) => r.phase == Phase::Closed && r.action is SendAndClose
                && r.action->SendAndClose_0@ == reply_frame(
                ReplyStatus::CommandNotSupported,
                unspecified(),
            ),
            (None, _) => r.phase == Phase::Closed && r.action is SendAndClose
                && r.action->SendAndClose_0@ == reply_frame(
                ReplyStatus::GeneralFailure,
                unspecified(),
            ),
        },
{
    match (port, &cfg.public_ip) {
        (Some(p), Some(ip)) => {
            let bound = if ip.len() == 4 {
                Address::Ipv4 { ip: ip.clone(), port: p }
            } else {
                Address::Ipv6 { ip: ip.clone(), port: p }
            };
            assert(bound@ == udp_bound_addr(ip@, p));
            match encode_reply(ReplyStatus::Succeeded, &bound) {
                Ok(v) => Step { phase: Phase::UdpRelaying, action: Action::SendAndRelay(v), consumed: 0 },
                Err(_) => {
                    assert(false);
                    Step { phase: Phase::Closed, action: Action::Close, consumed: 0 }
                },
            }
        },
        (Some(_), None) => Step {
            phase: Phase::Closed,
            action: Action::SendAndClose(failure_reply(ReplyStatus::CommandNotSupported)),
            consumed: 0,
        },
        (None, _) => Step {
            phase: Phase::Closed,
            action: Action::SendAndClose(failure_reply(ReplyStatus::GeneralFailure)),
            consumed: 0,
        },
    }
}

/// What ends a relay.
#[derive(Clone, Copy, Debug, PartialEq, Eq, Structural)]
pub enum RelayEnd {
    /// One side closed its half.
    PeerClosed,
    /// Reading or writing failed.
    IoError,
    /// No data moved in either direction for the configured duration.
    IdleTimeout,
}

/// Handles the end of a relay: whatever ended it, the session closes and
/// releases its sockets without writing, since the data plane is already open.
pub fn on_relay_end(phase: Phase, end: RelayEnd) -> (r: Step)
    requires
        phase == Phase::Relaying || phase == Phase::UdpRelaying,
    ensures
        r.phase == Phase::Closed && r.action is Close && r.consumed == 0,
{
    Step { phase: Phase::Closed, action: Action::Close, consumed: 0 }
}

/// In password mode a message carrying a non-empty username and password is
/// accepted exactly when both equal the configured ones; otherwise the
/// failure status is sent and the session closes.
pub proof fn lemma_password_outcome(cfg: &ServerConfig, u: Seq<u8>, p: Seq<u8>)
    requires
        cfg.auth is Password,
        1 <= u.len() <= 255,
        1 <= p.len() <= 255,
    ensures
        parse_credentials(credentials_message(u, p)) == Ok::<
            (Seq<u8>, Seq<u8>),
            CredentialsError,
        >((u, p)),
        accepts(cfg, u, p) == (u == cfg.auth->username@ && p == cfg.auth->password@),
{
    lemma_credentials_round_trip(u, p);
}

/// A failed destination connection is never reported as a success; an
/// unreachable host or network is reported as such.
pub proof fn lemma_connect_failure_reply(f: ConnectFailure)
    ensures
        connect_failure_status(f) != ReplyStatus::Succeeded,
        f == ConnectFailure::HostUnreachable ==> connect_failure_status(f)
            == ReplyStatus::HostUnreachable,
        f == ConnectFailure::NetworkUnreachable ==> connect_failure_status(f)
            == ReplyStatus::NetworkUnreachable,
{
}

/// Without a public address, UDP ASSOCIATE is refused as not supported,
/// whether UDP is allowed or not; no UDP socket is asked for.
pub proof fn lemma_udp_needs_public_addr(allow_udp: bool)
    ensures
        dispatch_of(Command::UdpAssociate, allow_udp, false) == Dispatch::Refuse(
            ReplyStatus::CommandNotSupported,
        ),
{
}

} // verus!
