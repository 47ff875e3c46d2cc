use vstd::prelude::*;
use crate::codec::{
    Address, AddrSpec, AddressError, addr_valid, append_bytes, copy_range, decode_address,
    encode_addr, encode_address, encode_error, lemma_address_round_trip, parse_addr,
};

verus! {

/// Why a datagram from the client could not be unwrapped.
#[derive(Clone, Copy, Debug, PartialEq, Eq, Structural)]
pub enum EnvelopeError {
    /// The datagram ends inside its header.
    Truncated,
    /// The two reserved bytes are not zero.
    ReservedNotZero,
    /// The address-type byte is unknown.
    UnknownAddressType,
}

/// A datagram with its envelope taken apart.
pub struct Envelope {
    pub frag: u8,
    pub destination: Address,
    pub payload: Vec<u8>,
}

/// Fragment number, destination and payload of a datagram
/// `[0, 0, frag, atyp, addr..., port, payload...]`.
pub open spec fn parse_envelope(d: Seq<u8>) -> Result<(u8, AddrSpec, Seq<u8>), EnvelopeError> {
    if d.len() < 4 {
        Err(EnvelopeError::Truncated)
    } else if d[0] != 0 || d[1] != 0 {
        Err(EnvelopeError::ReservedNotZero)
    } else {
        match parse_addr(d.skip(3)) {
            Err(AddressError::UnknownType) => Err(EnvelopeError::UnknownAddressType),
            Err(_) => Err(EnvelopeError::Truncated),
            Ok((a, n)) => Ok((d[2], a, d.skip(3 + n))),
        }
    }
}

/// A payload wrapped in the envelope naming `origin`, fragment number zero.
pub open spec fn envelope_bytes(origin: AddrSpec, payload: Seq<u8>) -> Seq<u8> {
    seq![0u8, 0u8, 0u8] + encode_addr(origin) + payload
}

/// Takes a datagram from the client apart.
pub fn unwrap_datagram(d: &[u8]) -> (r: Result<Envelope, EnvelopeError>)
    ensures
        match parse_envelope(d@) {
            Ok((f, a, p)) => r is Ok && r->Ok_0.frag == f && r->Ok_0.destination@ == a
                && r->Ok_0.payload@ == p,
            Err(e) => r == Err::<Envelope, EnvelopeError>(e),
        },
{
    if d.len() < 4 {
        return Err(EnvelopeError::Truncated);
    }
    if d[0] != 0 || d[1] != 0 {
        return Err(EnvelopeError::ReservedNotZero);
    }
    match decode_address(d, 3) {
        Ok((destination, n)) => {
            let payload = copy_range(d, 3 + n, d.len());
            assert(payload@ =~= d@.skip(3 + n));
            Ok(Envelope { frag: d[2], destination, payload })
        },
        Err(AddressError::UnknownType) => Err(EnvelopeError::UnknownAddressType),
        Err(_) => Err(EnvelopeError::Truncated),
    }
}

/// Wraps a payload that came from `origin` for the client.
pub fn wrap_datagram(origin: &Address, payload: &[u8]) -> (r: Result<Vec<u8>, AddressError>)
    ensures
        match encode_error(origin@) {
            None => r is Ok && r->Ok_0@ == envelope_bytes(origin@, payload@),
            Some(e) => r == Err::<Vec<u8>, AddressError>(e),
        },
{
    let addr = encode_address(origin)?;
    let mut out: Vec<u8> = vec![0, 0, 0];
    append_bytes(&mut out, addr.as_slice());
    append_bytes(&mut out, payload);
    assert(out@ =~= envelope_bytes(origin@, payload@));
    Ok(out)
}

/// What to send towards a destination for a datagram from the client:
/// its destination and payload, or nothing where the datagram is malformed
/// or a fragment (fragments are dropped).
pub open spec fn outbound(d: Seq<u8>) -> Option<(AddrSpec, Seq<u8>)> {
    match parse_envelope(d) {
        Ok((f, a, p)) => if f == 0 {
            Some((a, p))
        } else {
            None
        },
        Err(_) => None,
    }
}

/// Decides what a datagram from the client becomes: destination and payload,
/// or `None` where it is dropped.
pub fn forward_datagram(d: &[u8]) -> (r: Option<(Address, Vec<u8>)>)
    ensures
        match outbound(d@) {
            Some((a, p)) => r is Some && r->Some_0.0@ == a && r->Some_0.1@ == p,
            None => r is None,
        },
{
    match unwrap_datagram(d) {
        Ok(env) => if env.frag == 0 {
            Some((env.destination, env.payload))
        } else {
            None
        },
        Err(_) => None,
    }
}

/// A payload wrapped with a valid address as origin comes out of the envelope
/// unchanged, with that address, fragment zero, and is forwarded there.
pub proof fn lemma_envelope_round_trip(a: AddrSpec, payload: Seq<u8>)
    requires
        addr_valid(a),
    ensures
        encode_error(a) is None,
        parse_envelope(envelope_bytes(a, payload)) == Ok::<
            (u8, AddrSpec, Seq<u8>),
            EnvelopeError,
        >((0u8, a, payload)),
        outbound(envelope_bytes(a, payload)) == Some((a, payload)),
{
    let d = envelope_bytes(a, payload);
    lemma_address_round_trip(a, payload);
    assert(d.skip(3) =~= encode_addr(a) + payload);
    let n = encode_addr(a).len() as int;
    assert(d.skip(3 + n) =~= payload);
}

} // verus!
