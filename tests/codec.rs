use socks5_server::codec::{decode_address, encode_address, Address, AddressError};
use socks5_server::reply::{reply_code, ReplyStatus};
use socks5_server::request::{encode_reply, failure_reply, read_request, Command, RequestError};
use socks5_server::udp::{forward_datagram, unwrap_datagram, wrap_datagram, EnvelopeError};

fn same(a: &Address, b: &Address) -> bool {
    match (a, b) {
        (Address::Ipv4 { ip: x, port: p }, Address::Ipv4 { ip: y, port: q }) => x == y && p == q,
        (Address::Ipv6 { ip: x, port: p }, Address::Ipv6 { ip: y, port: q }) => x == y && p == q,
        (Address::Domain { name: x, port: p }, Address::Domain { name: y, port: q }) => {
            x == y && p == q
        }
        _ => false,
    }
}

#[test]
fn ipv4_encodes_in_network_order() {
    let a = Address::Ipv4 { ip: vec![127, 0, 0, 1], port: 1080 };
    assert_eq!(encode_address(&a).unwrap(), vec![1, 127, 0, 0, 1, 0x04, 0x38]);
}

#[test]
fn domain_encodes_with_length_prefix() {
    let a = Address::Domain { name: b"example.com".to_vec(), port: 80 };
    let mut expected = vec![3, 11];
    expected.extend_from_slice(b"example.com");
    expected.extend_from_slice(&[0, 80]);
    assert_eq!(encode_address(&a).unwrap(), expected);
}

#[test]
fn round_trip_every_address_type() {
    let cases = vec![
        Address::Ipv4 { ip: vec![10, 1, 2, 3], port: 65535 },
        Address::Ipv6 { ip: (0u8..16).collect(), port: 0 },
        Address::Domain { name: vec![b'a'; 255], port: 443 },
        Address::Domain { name: Vec::new(), port: 1 },
    ];
    for a in cases.iter() {
        let mut bytes = encode_address(a).unwrap();
        let n = bytes.len();
        bytes.extend_from_slice(&[9, 9, 9]);
        let (b, used) = decode_address(&bytes, 0).unwrap();
        assert!(same(a, &b));
        assert_eq!(used, n);
    }
}

#[test]
fn domain_longer_than_255_is_refused() {
    let a = Address::Domain { name: vec![b'a'; 256], port: 80 };
    assert_eq!(encode_address(&a).unwrap_err(), AddressError::DomainTooLong);
}

#[test]
fn ip_of_wrong_width_is_refused() {
    let a = Address::Ipv4 { ip: vec![1, 2, 3], port: 80 };
    assert_eq!(encode_address(&a).unwrap_err(), AddressError::BadIpLength);
}

#[test]
fn decode_errors() {
    assert_eq!(decode_address(&[], 0).unwrap_err(), AddressError::Truncated);
    assert_eq!(decode_address(&[1, 1, 2, 3], 0).unwrap_err(), AddressError::Truncated);
    assert_eq!(decode_address(&[3, 5, b'a'], 0).unwrap_err(), AddressError::Truncated);
    assert_eq!(decode_address(&[2, 0, 0], 0).unwrap_err(), AddressError::UnknownType);
}

#[test]
fn reply_codes_follow_the_protocol() {
    assert_eq!(reply_code(ReplyStatus::Succeeded), 0);
    assert_eq!(reply_code(ReplyStatus::GeneralFailure), 1);
    assert_eq!(reply_code(ReplyStatus::ConnectionNotAllowed), 2);
    assert_eq!(reply_code(ReplyStatus::NetworkUnreachable), 3);
    assert_eq!(reply_code(ReplyStatus::HostUnreachable), 4);
    assert_eq!(reply_code(ReplyStatus::ConnectionRefused), 5);
    assert_eq!(reply_code(ReplyStatus::TtlExpired), 6);
    assert_eq!(reply_code(ReplyStatus::CommandNotSupported), 7);
    assert_eq!(reply_code(ReplyStatus::AddressTypeNotSupported), 8);
}

#[test]
fn success_reply_frame() {
    let bound = Address::Ipv4 { ip: vec![192, 168, 1, 2], port: 4000 };
    assert_eq!(
        encode_reply(ReplyStatus::Succeeded, &bound).unwrap(),
        vec![5, 0, 0, 1, 192, 168, 1, 2, 0x0f, 0xa0]
    );
}

#[test]
fn failure_reply_reports_unspecified_address() {
    assert_eq!(
        failure_reply(ReplyStatus::HostUnreachable),
        vec![5, 4, 0, 1, 0, 0, 0, 0, 0, 0]
    );
}

#[test]
fn request_connect_to_domain() {
    let mut msg = vec![5, 1, 0, 3, 9];
    msg.extend_from_slice(b"localhost");
    msg.extend_from_slice(&[0x1f, 0x90]);
    let (c, a, n) = read_request(&msg).unwrap();
    assert_eq!(c, Command::Connect);
    assert!(same(&a, &Address::Domain { name: b"localhost".to_vec(), port: 8080 }));
    assert_eq!(n, msg.len());
}

#[test]
fn request_errors() {
    assert_eq!(read_request(&[5, 1, 0]).unwrap_err(), RequestError::Truncated);
    assert_eq!(
        read_request(&[4, 1, 0, 1, 1, 2, 3, 4, 0, 80]).unwrap_err(),
        RequestError::UnsupportedVersion(4)
    );
    assert_eq!(
        read_request(&[5, 1, 0, 7, 1, 2, 3, 4, 0, 80]).unwrap_err(),
        RequestError::UnknownAddressType
    );
    assert_eq!(
        read_request(&[5, 9, 0, 1, 1, 2, 3, 4, 0, 80]).unwrap_err(),
        RequestError::UnknownCommand(9)
    );
    let (c, _, _) = read_request(&[5, 2, 0, 1, 1, 2, 3, 4, 0, 80]).unwrap();
    assert_eq!(c, Command::Bind);
    let (c, _, _) = read_request(&[5, 3, 0, 1, 0, 0, 0, 0, 0, 0]).unwrap();
    assert_eq!(c, Command::UdpAssociate);
}

#[test]
fn envelope_round_trip_to_destination_and_back() {
    let d = Address::Ipv4 { ip: vec![8, 8, 8, 8], port: 53 };
    let wrapped = wrap_datagram(&d, b"query").unwrap();
    assert_eq!(wrapped, vec![0, 0, 0, 1, 8, 8, 8, 8, 0, 53, b'q', b'u', b'e', b'r', b'y']);
    let (dest, payload) = forward_datagram(&wrapped).unwrap();
    assert!(same(&dest, &d));
    assert_eq!(payload, b"query".to_vec());
    let back = wrap_datagram(&dest, b"answer").unwrap();
    let env = unwrap_datagram(&back).unwrap();
    assert_eq!(env.frag, 0);
    assert!(same(&env.destination, &d));
    assert_eq!(env.payload, b"answer".to_vec());
}

#[test]
fn fragments_and_malformed_datagrams_are_dropped() {
    assert!(forward_datagram(&[0, 0, 1, 1, 8, 8, 8, 8, 0, 53, 1]).is_none());
    assert_eq!(
        unwrap_datagram(&[0, 1, 0, 1, 8, 8, 8, 8, 0, 53]).err().unwrap(),
        EnvelopeError::ReservedNotZero
    );
    assert_eq!(unwrap_datagram(&[0, 0, 0]).err().unwrap(), EnvelopeError::Truncated);
    assert_eq!(
        unwrap_datagram(&[0, 0, 0, 5, 1]).err().unwrap(),
        EnvelopeError::UnknownAddressType
    );
}
