use vstd::prelude::*;
use crate::codec::{
    Address, AddrSpec, AddressError, decode_address, encode_addr, encode_address,
    encode_error, parse_addr,
};
use crate::handshake::SOCKS_VERSION;
use crate::reply::{ReplyStatus, reply_code, status_code};

verus! {

/// A client's request command.
#[derive(Clone, Copy, Debug, PartialEq, Eq, Structural)]
pub enum Command {
    Connect,
    Bind,
    UdpAssociate,
}

/// The command a command byte denotes.
pub open spec fn command_of(b: u8) -> Option<Command> {
    if b == 1 {
        Some(Command::Connect)
    } else if b == 2 {
        Some(Command::Bind)
    } else if b == 3 {
        Some(Command::UdpAssociate)
    } else {
        None
    }
}

/// Why a request could not be taken.
#[derive(Clone, Copy, Debug, PartialEq, Eq, Structural)]
pub enum RequestError {
    /// The request ends before its port does: the framing is lost.
    Truncated,
    /// The request is not of this protocol version.
    UnsupportedVersion(u8),
    /// The address-type byte is unknown.
    UnknownAddressType,
    /// The command byte is unknown.
    UnknownCommand(u8),
}

/// The reply owed to the client for a refused request, if the wire still allows one.
pub open spec fn request_error_status(e: RequestError) -> Option<ReplyStatus> {
    match e {
        RequestError::Truncated => None,
        RequestError::UnsupportedVersion(_) => Some(ReplyStatus::GeneralFailure),
        RequestError::UnknownAddressType => Some(ReplyStatus::AddressTypeNotSupported),
        RequestError::UnknownCommand(_) => Some(ReplyStatus::CommandNotSupported),
    }
}

/// The reply owed to the client for a refused request, if the wire still allows one.
pub fn error_status(e: RequestError) -> (r: Option<ReplyStatus>)
    ensures
        r == request_error_status(e),
{
    match e {
        RequestError::Truncated => None,
        RequestError::UnsupportedVersion(_) => Some(ReplyStatus::GeneralFailure),
        RequestError::UnknownAddressType => Some(ReplyStatus::AddressTypeNotSupported),
        RequestError::UnknownCommand(_) => Some(ReplyStatus::CommandNotSupported),
    }
}

/// The command and destination of a request `[version, cmd, rsv, atyp, addr..., port]`.
/// The address is read before the command is judged.
pub open spec fn parse_request(s: Seq<u8>) -> Result<(Command, AddrSpec), RequestError> {
    if s.len() < 4 {
        Err(RequestError::Truncated)
    } else if s[0] != SOCKS_VERSION {
        Err(RequestError::UnsupportedVersion(s[0]))
    } else {
        match parse_addr(s.skip(3)) {
            Err(AddressError::UnknownType) => Err(RequestError::UnknownAddressType),
            Err(_) => Err(RequestError::Truncated),
            Ok((a, _)) => match command_of(s[1]) {
                Some(c) => Ok((c, a)),
                None => Err(RequestError::UnknownCommand(s[1])),
            },
        }
    }
}

/// The number of bytes a well-formed request at the head of `s` takes.
pub open spec fn request_size(s: Seq<u8>) -> int {
    3 + parse_addr(s.skip(3))->Ok_0.1
}

/// Reads a request `[version, cmd, rsv, atyp, addr..., port]`, returning its
/// command, its destination and the number of bytes it takes.
pub fn read_request(msg: &[u8]) -> (r: Result<(Command, Address, usize), RequestError>)
    ensures
        match parse_request(msg@) {
            Ok((c, a)) => r is Ok && r->Ok_0.0 == c && r->Ok_0.1@ == a && r->Ok_0.2
                == request_size(msg@),
            Err(e) => r == Err::<(Command, Address, usize), RequestError>(e),
        },
{
    if msg.len() < 4 {
        return Err(RequestError::Truncated);
    }
    if msg[0] != SOCKS_VERSION {
        return Err(RequestError::UnsupportedVersion(msg[0]));
    }
    let (addr, n) = match decode_address(msg, 3) {
        Ok((a, n)) => (a, n),
        Err(AddressError::UnknownType) => return Err(RequestError::UnknownAddressType),
        Err(_) => return Err(RequestError::Truncated),
    };
    let c = msg[1];
    if c == 1 {
        Ok((Command::Connect, addr, 3 + n))
    } else if c == 2 {
        Ok((Command::Bind, addr, 3 + n))
    } else if c == 3 {
        Ok((Command::UdpAssociate, addr, 3 + n))
    } else {
        Err(RequestError::UnknownCommand(c))
    }
}

/// The reply frame: version, status, reserved byte, then the bound address.
pub open spec fn reply_frame(s: ReplyStatus, bound: AddrSpec) -> Seq<u8> {
    seq![SOCKS_VERSION, status_code(s), 0u8] + encode_addr(bound)
}

/// Builds the reply frame for a status and a bound address.
pub fn encode_reply(s: ReplyStatus, bound: &Address) -> (r: Result<Vec<u8>, AddressError>)
    ensures
        match encode_error(bound@) {
            None => r is Ok && r->Ok_0@ == reply_frame(s, bound@),
            Some(e) => r == Err::<Vec<u8>, AddressError>(e),
        },
{
    let addr = encode_address(bound)?;
    let mut out: Vec<u8> = vec![SOCKS_VERSION, reply_code(s), 0];
    crate::codec::append_bytes(&mut out, addr.as_slice());
    assert(out@ =~= reply_frame(s, bound@));
    Ok(out)
}

/// The unspecified IPv4 address with port 0, reported by failure replies.
pub open spec fn unspecified() -> AddrSpec {
    AddrSpec::Ipv4 { ip: seq![0u8, 0u8, 0u8, 0u8], port: 0 }
}

/// Builds the reply frame of a failure, reporting the unspecified address.
pub fn failure_reply(s: ReplyStatus) -> (r: Vec<u8>)
    ensures
        r@ == reply_frame(s, unspecified()),
{
    let a = Address::Ipv4 { ip: vec![0, 0, 0, 0], port: 0 };
    assert(a@ =~= unspecified());
    match encode_reply(s, &a) {
        Ok(v) => v,
        Err(_) => {
            assert(false);
            Vec::new()
        },
    }
}

} // verus!
