use vstd::prelude::*;
use fast_socks5::ReplyError;

verus! {

#[verifier::external_type_specification]
pub struct ExReplyError(ReplyError);

/// The wire code that the outside crate gives each of its reply values.
pub open spec fn outside_code(e: ReplyError) -> u8 {
    match e {
        ReplyError::Succeeded => 0,
        ReplyError::GeneralFailure => 1,
        ReplyError::ConnectionNotAllowed => 2,
        ReplyError::NetworkUnreachable => 3,
        ReplyError::HostUnreachable => 4,
        ReplyError::ConnectionRefused => 5,
        ReplyError::ConnectionTimeout => 6,
        ReplyError::TtlExpired => 6,
        ReplyError::CommandNotSupported => 7,
        ReplyError::AddressTypeNotSupported => 8,
    }
}

/// Relies on `fast_socks5::ReplyError::as_u8`: the wire code of each reply,
/// with `ConnectionTimeout` sent as TTL expired.
pub assume_specification[ ReplyError::as_u8 ](e: ReplyError) -> (r: u8)
    ensures
        r == outside_code(e),
;

/// The status carried by every reply frame.
#[derive(Clone, Copy, Debug, PartialEq, Eq, Structural)]
pub enum ReplyStatus {
    Succeeded,
    GeneralFailure,
    ConnectionNotAllowed,
    NetworkUnreachable,
    HostUnreachable,
    ConnectionRefused,
    TtlExpired,
    CommandNotSupported,
    AddressTypeNotSupported,
}

/// The wire code of a status.
pub open spec fn status_code(s: ReplyStatus) -> u8 {
    match s {
        ReplyStatus::Succeeded => 0,
        ReplyStatus::GeneralFailure => 1,
        ReplyStatus::ConnectionNotAllowed => 2,
        ReplyStatus::NetworkUnreachable => 3,
        ReplyStatus::HostUnreachable => 4,
        ReplyStatus::ConnectionRefused => 5,
        ReplyStatus::TtlExpired => 6,
        ReplyStatus::CommandNotSupported => 7,
        ReplyStatus::AddressTypeNotSupported => 8,
    }
}

/// The outside reply value that stands for a status.
pub fn to_reply_error(s: ReplyStatus) -> (r: ReplyError)
    ensures
        outside_code(r) == status_code(s),
{
    match s {
        ReplyStatus::Succeeded => ReplyError::Succeeded,
        ReplyStatus::GeneralFailure => ReplyError::GeneralFailure,
        ReplyStatus::ConnectionNotAllowed => ReplyError::ConnectionNotAllowed,
        ReplyStatus::NetworkUnreachable => ReplyError::NetworkUnreachable,
        ReplyStatus::HostUnreachable => ReplyError::HostUnreachable,
        ReplyStatus::ConnectionRefused => ReplyError::ConnectionRefused,
        ReplyStatus::TtlExpired => ReplyError::TtlExpired,
        ReplyStatus::CommandNotSupported => ReplyError::CommandNotSupported,
        ReplyStatus::AddressTypeNotSupported => ReplyError::AddressTypeNotSupported,
    }
}

/// The wire code of a status, as the outside crate encodes it.
pub fn reply_code(s: ReplyStatus) -> (r: u8)
    ensures
        r == status_code(s),
{
    to_reply_error(s).as_u8()
}

} // verus!
