use vstd::prelude::*;
use crate::handshake::Method;
use crate::request::Command;
use crate::reply::ReplyStatus;

verus! {

/// How clients authenticate.
pub enum AuthMode {
    NoAuth,
    Password { username: Vec<u8>, password: Vec<u8> },
}

/// What the engine is handed by its configuration.
pub struct ServerConfig {
    pub auth: AuthMode,
    /// Skip the method negotiation entirely (not RFC-compliant).
    pub skip_auth: bool,
    /// Serve UDP ASSOCIATE.
    pub allow_udp: bool,
    /// The IP address reported in UDP ASSOCIATE replies (4 or 16 bytes).
    pub public_ip: Option<Vec<u8>>,
    /// Seconds allowed for connecting, and for a relay to stay idle.
    pub request_timeout: u64,
}

/// A configuration that cannot be served.
#[derive(Clone, Copy, Debug, PartialEq, Eq, Structural)]
pub enum ConfigError {
    /// UDP is allowed but no public address is set.
    UdpWithoutPublicAddr,
    /// Skipping authentication was asked together with password authentication.
    SkipAuthWithPassword,
    /// The public address is neither 4 nor 16 bytes long.
    BadPublicAddr,
}

/// Whether `ip` has the width of an IPv4 or IPv6 address.
pub open spec fn ip_width_ok(ip: Seq<u8>) -> bool {
    ip.len() == 4 || ip.len() == 16
}

/// The first reason, if any, for which a configuration cannot be served.
pub open spec fn config_error(
    auth_is_password: bool,
    skip_auth: bool,
    allow_udp: bool,
    public_ip: Option<Seq<u8>>,
) -> Option<ConfigError> {
    if allow_udp && public_ip is None {
        Some(ConfigError::UdpWithoutPublicAddr)
    } else if skip_auth && auth_is_password {
        Some(ConfigError::SkipAuthWithPassword)
    } else if public_ip is Some && !ip_width_ok(public_ip->Some_0) {
        Some(ConfigError::BadPublicAddr)
    } else {
        None
    }
}

impl ServerConfig {
    pub open spec fn is_password(&self) -> bool {
        self.auth is Password
    }

    pub open spec fn public_ip_view(&self) -> Option<Seq<u8>> {
        match &self.public_ip {
            Some(ip) => Some(ip@),
            None => None,
        }
    }

    /// A configuration that passed [`ServerConfig::validate`].
    pub open spec fn wf(&self) -> bool {
        config_error(self.is_password(), self.skip_auth, self.allow_udp, self.public_ip_view())
            is None
    }

    /// Checks that the configuration can be served.
    pub fn validate(&self) -> (r: Result<(), ConfigError>)
        ensures
            match config_error(
                self.is_password(),
                self.skip_auth,
                self.allow_udp,
                self.public_ip_view(),
            ) {
                None => r is Ok,
                Some(e) => r == Err::<(), ConfigError>(e),
            },
    {
        if self.allow_udp && self.public_ip.is_none() {
            return Err(ConfigError::UdpWithoutPublicAddr);
        }
        let password = match &self.auth {
            AuthMode::NoAuth => false,
            AuthMode::Password { .. } => true,
        };
        if self.skip_auth && password {
            return Err(ConfigError::SkipAuthWithPassword);
        }
        match &self.public_ip {
            Some(ip) => if ip.len() != 4 && ip.len() != 16 {
                return Err(ConfigError::BadPublicAddr);
            },
            None => {},
        }
        Ok(())
    }

    /// The methods the server accepts, in its order of preference.
    pub fn methods(&self) -> (r: Vec<Method>)
        ensures
            r@ == self.methods_spec(),
    {
        match &self.auth {
            AuthMode::NoAuth => vec![Method::NoAuth],
            AuthMode::Password { .. } => vec![Method::Password],
        }
    }

    pub open spec fn methods_spec(&self) -> Seq<Method> {
        match self.auth {
            AuthMode::NoAuth => seq![Method::NoAuth],
            AuthMode::Password { .. } => seq![Method::Password],
        }
    }
}

/// How a request that was read and resolved is served.
#[derive(Clone, Copy, Debug, PartialEq, Eq, Structural)]
pub enum Dispatch {
    /// Connect to the destination and relay the stream.
    TcpRelay,
    /// Bind a UDP socket and relay datagrams.
    UdpRelay,
    /// Refuse with this status.
    Refuse(ReplyStatus),
}

/// How a command is served under a configuration.
pub open spec fn dispatch_of(cmd: Command, allow_udp: bool, has_public_ip: bool) -> Dispatch {
    match cmd {
        Command::Connect => Dispatch::TcpRelay,
        Command::UdpAssociate => if allow_udp && has_public_ip {
            Dispatch::UdpRelay
        } else {
            Dispatch::Refuse(ReplyStatus::CommandNotSupported)
        },
        Command::Bind => Dispatch::Refuse(ReplyStatus::CommandNotSupported),
    }
}

impl ServerConfig {
    /// Decides how a command is served: CONNECT is relayed; UDP ASSOCIATE only
    /// where UDP is allowed and a public address is set; anything else is
    /// refused as not supported.
    pub fn dispatch(&self, cmd: Command) -> (r: Dispatch)
        ensures
            r == dispatch_of(cmd, self.allow_udp, self.public_ip is Some),
    {
        match cmd {
            Command::Connect => Dispatch::TcpRelay,
            Command::UdpAssociate => if self.allow_udp && self.public_ip.is_some() {
                Dispatch::UdpRelay
            } else {
                Dispatch::Refuse(ReplyStatus::CommandNotSupported)
            },
            Command::Bind => Dispatch::Refuse(ReplyStatus::CommandNotSupported),
        }
    }
}

} // verus!
