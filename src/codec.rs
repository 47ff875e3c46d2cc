use vstd::prelude::*;

verus! {

/// Address-type byte of an IPv4 address.
pub const ATYP_IPV4: u8 = 1;
/// Address-type byte of a domain name.
pub const ATYP_DOMAIN: u8 = 3;
/// Address-type byte of an IPv6 address.
pub const ATYP_IPV6: u8 = 4;

/// A destination or bound address with its port.
#[derive(Clone, Debug)]
pub enum Address {
    Ipv4 { ip: Vec<u8>, port: u16 },
    Ipv6 { ip: Vec<u8>, port: u16 },
    Domain { name: Vec<u8>, port: u16 },
}

/// The mathematical value of an [`Address`].
pub ghost enum AddrSpec {
    Ipv4 { ip: Seq<u8>, port: u16 },
    Ipv6 { ip: Seq<u8>, port: u16 },
    Domain { name: Seq<u8>, port: u16 },
}

impl View for Address {
    type V = AddrSpec;

    open spec fn view(&self) -> AddrSpec {
        match self {
            Address::Ipv4 { ip, port } => AddrSpec::Ipv4 { ip: ip@, port: *port },
            Address::Ipv6 { ip, port } => AddrSpec::Ipv6 { ip: ip@, port: *port },
            Address::Domain { name, port } => AddrSpec::Domain { name: name@, port: *port },
        }
    }
}

/// Why an address could not be encoded or decoded.
#[derive(Clone, Copy, Debug, PartialEq, Eq, Structural)]
pub enum AddressError {
    /// The input ends before the address does.
    Truncated,
    /// The address-type byte is none of IPv4, domain name, IPv6.
    UnknownType,
    /// A domain name longer than 255 bytes cannot be framed.
    DomainTooLong,
    /// An IP address field of the wrong width.
    BadIpLength,
}

/// An address that the wire format can carry.
pub open spec fn addr_valid(a: AddrSpec) -> bool {
    match a {
        AddrSpec::Ipv4 { ip, .. } => ip.len() == 4,
        AddrSpec::Ipv6 { ip, .. } => ip.len() == 16,
        AddrSpec::Domain { name, .. } => name.len() <= 255,
    }
}

/// A port in network byte order.
pub open spec fn port_bytes(p: u16) -> Seq<u8> {
    seq![(p / 256) as u8, (p % 256) as u8]
}

/// The port that two bytes in network byte order denote.
pub open spec fn port_of(hi: u8, lo: u8) -> u16 {
    (hi as int * 256 + lo as int) as u16
}

/// The bytes of an address on the wire: type, address, port.
pub open spec fn encode_addr(a: AddrSpec) -> Seq<u8> {
    match a {
        AddrSpec::Ipv4 { ip, port } => seq![ATYP_IPV4] + ip + port_bytes(port),
        AddrSpec::Ipv6 { ip, port } => seq![ATYP_IPV6] + ip + port_bytes(port),
        AddrSpec::Domain { name, port } => seq![ATYP_DOMAIN, name.len() as u8] + name
            + port_bytes(port),
    }
}

/// The address at the head of `s`, with the number of bytes it takes.
pub open spec fn parse_addr(s: Seq<u8>) -> Result<(AddrSpec, int), AddressError> {
    if s.len() < 1 {
        Err(AddressError::Truncated)
    } else if s[0] == ATYP_IPV4 {
        if s.len() < 7 {
            Err(AddressError::Truncated)
        } else {
            Ok((AddrSpec::Ipv4 { ip: s.subrange(1, 5), port: port_of(s[5], s[6]) }, 7))
        }
    } else if s[0] == ATYP_IPV6 {
        if s.len() < 19 {
            Err(AddressError::Truncated)
        } else {
            Ok((AddrSpec::Ipv6 { ip: s.subrange(1, 17), port: port_of(s[17], s[18]) }, 19))
        }
    } else if s[0] == ATYP_DOMAIN {
        if s.len() < 2 || s.len() < 4 + s[1] {
            Err(AddressError::Truncated)
        } else {
            let n = s[1] as int;
            Ok(
                (
                    AddrSpec::Domain {
                        name: s.subrange(2, 2 + n),
                        port: port_of(s[2 + n], s[3 + n]),
                    },
                    4 + n,
                ),
            )
        }
    } else {
        Err(AddressError::UnknownType)
    }
}

/// Why an address cannot be encoded, if it cannot.
pub open spec fn encode_error(a: AddrSpec) -> Option<AddressError> {
    match a {
        AddrSpec::Ipv4 { ip, .. } => if ip.len() == 4 {
            None
        } else {
            Some(AddressError::BadIpLength)
        },
        AddrSpec::Ipv6 { ip, .. } => if ip.len() == 16 {
            None
        } else {
            Some(AddressError::BadIpLength)
        },
        AddrSpec::Domain { name, .. } => if name.len() <= 255 {
            None
        } else {
            Some(AddressError::DomainTooLong)
        },
    }
}

/// Appends `src` to `out`.
pub fn append_bytes(out: &mut Vec<u8>, src: &[u8])
    ensures
        final(out)@ == old(out)@ + src@,
{
    let mut i: usize = 0;
    while i < src.len()
        invariant
            i <= src@.len(),
            out@ == old(out)@ + src@.subrange(0, i as int),
        decreases src@.len() - i,
    {
        out.push(src[i]);
        i = i + 1;
        assert(src@.subrange(0, i as int) =~= src@.subrange(0, i - 1) + seq![src@[i - 1]]);
    }
    assert(src@.subrange(0, i as int) =~= src@);
}

/// The bytes of `b` from `from` up to `to`.
pub fn copy_range(b: &[u8], from: usize, to: usize) -> (r: Vec<u8>)
    requires
        from <= to <= b@.len(),
    ensures
        r@ == b@.subrange(from as int, to as int),
{
    let mut r: Vec<u8> = Vec::new();
    let mut i: usize = from;
    while i < to
        invariant
            from <= i <= to <= b@.len(),
            r@ == b@.subrange(from as int, i as int),
        decreases to - i,
    {
        r.push(b[i]);
        i = i + 1;
        assert(b@.subrange(from as int, i as int) =~= b@.subrange(from as int, i - 1) + seq![
            b@[i - 1],
        ]);
    }
    r
}

fn push_port(out: &mut Vec<u8>, port: u16)
    ensures
        final(out)@ == old(out)@ + port_bytes(port),
{
    out.push((port / 256) as u8);
    out.push((port % 256) as u8);
    assert(final(out)@ =~= old(out)@ + port_bytes(port));
}

/// Encodes an address as type byte, address and port in network byte order.
pub fn encode_address(a: &Address) -> (r: Result<Vec<u8>, AddressError>)
    ensures
        match encode_error(a@) {
            None => r == Ok::<Vec<u8>, AddressError>(r->Ok_0) && r->Ok_0@ == encode_addr(a@),
            Some(e) => r == Err::<Vec<u8>, AddressError>(e),
        },
{
    let mut out: Vec<u8> = Vec::new();
    match a {
        Address::Ipv4 { ip, port } => {
            if ip.len() != 4 {
                return Err(AddressError::BadIpLength);
            }
            out.push(ATYP_IPV4);
            append_bytes(&mut out, ip.as_slice());
            push_port(&mut out, *port);
        },
        Address::Ipv6 { ip, port } => {
            if ip.len() != 16 {
                return Err(AddressError::BadIpLength);
            }
            out.push(ATYP_IPV6);
            append_bytes(&mut out, ip.as_slice());
            push_port(&mut out, *port);
        },
        Address::Domain { name, port } => {
            if name.len() > 255 {
                return Err(AddressError::DomainTooLong);
            }
            out.push(ATYP_DOMAIN);
            out.push(name.len() as u8);
            append_bytes(&mut out, name.as_slice());
            push_port(&mut out, *port);
        },
    }
    assert(out@ =~= encode_addr(a@));
    Ok(out)
}

fn read_port(b: &[u8], i: usize) -> (r: u16)
    requires
        i + 1 < b@.len(),
    ensures
        r == port_of(b@[i as int], b@[i + 1]),
{
    (b[i] as u16) * 256 + (b[i + 1] as u16)
}

/// Decodes the address that starts at `start` in `b`, returning it with
/// the number of bytes it takes.
pub fn decode_address(b: &[u8], start: usize) -> (r: Result<(Address, usize), AddressError>)
    requires
        start <= b@.len(),
    ensures
        match parse_addr(b@.skip(start as int)) {
            Ok((a, n)) => r is Ok && r->Ok_0.0@ == a && r->Ok_0.1 == n,
            Err(e) => r == Err::<(Address, usize), AddressError>(e),
        },
{
    let ghost s = b@.skip(start as int);
    let len = b.len() - start;
    if len < 1 {
        return Err(AddressError::Truncated);
    }
    let atyp = b[start];
    if atyp == ATYP_IPV4 {
        if len < 7 {
            return Err(AddressError::Truncated);
        }
        let ip = copy_range(b, start + 1, start + 5);
        let port = read_port(b, start + 5);
        assert(ip@ =~= s.subrange(1, 5));
        Ok((Address::Ipv4 { ip, port }, 7))
    } else if atyp == ATYP_IPV6 {
        if len < 19 {
            return Err(AddressError::Truncated);
        }
        let ip = copy_range(b, start + 1, start + 17);
        let port = read_port(b, start + 17);
        assert(ip@ =~= s.subrange(1, 17));
        Ok((Address::Ipv6 { ip, port }, 19))
    } else if atyp == ATYP_DOMAIN {
        if len < 2 {
            return Err(AddressError::Truncated);
        }
        let n = b[start + 1] as usize;
        if len < 4 + n {
            return Err(AddressError::Truncated);
        }
        let name = copy_range(b, start + 2, start + 2 + n);
        let port = read_port(b, start + 2 + n);
        assert(name@ =~= s.subrange(2, 2 + n));
        Ok((Address::Domain { name, port }, 4 + n))
    } else {
        Err(AddressError::UnknownType)
    }
}

/// A port written in network byte order reads back as itself.
pub proof fn lemma_port_round_trip(p: u16)
    ensures
        port_of(port_bytes(p)[0], port_bytes(p)[1]) == p,
{
    assert((p / 256) * 256 + p % 256 == p);
}

/// For every address the wire format can carry (IPv4, IPv6, a domain name of
/// at most 255 bytes), encoding succeeds, and decoding the encoding, whatever
/// follows it, yields the same address and consumes exactly the encoding.
pub proof fn lemma_address_round_trip(a: AddrSpec, rest: Seq<u8>)
    requires
        addr_valid(a),
    ensures
        encode_error(a) is None,
        parse_addr(encode_addr(a) + rest) == Ok::<(AddrSpec, int), AddressError>(
            (a, encode_addr(a).len() as int),
        ),
{
    let s = encode_addr(a) + rest;
    match a {
        AddrSpec::Ipv4 { ip, port } => {
            lemma_port_round_trip(port);
            assert(s.subrange(1, 5) =~= ip);
            assert(s[5] == port_bytes(port)[0] && s[6] == port_bytes(port)[1]);
        },
        AddrSpec::Ipv6 { ip, port } => {
            lemma_port_round_trip(port);
            assert(s.subrange(1, 17) =~= ip);
            assert(s[17] == port_bytes(port)[0] && s[18] == port_bytes(port)[1]);
        },
        AddrSpec::Domain { name, port } => {
            lemma_port_round_trip(port);
            let n = name.len() as int;
            assert(s[1] == n);
            assert(s.subrange(2, 2 + n) =~= name);
            assert(s[2 + n] == port_bytes(port)[0] && s[3 + n] == port_bytes(port)[1]);
        },
    }
}

} // verus!
