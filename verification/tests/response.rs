use bytes::BytesMut;
use socks_lib::net::{SocketAddr, SocketAddrV4, SocketAddrV6};
use socks_lib::v5::buffer::prepend_u8;
use socks_lib::v5::{Address, Domain, Response, Step, Stream};

fn stream() -> Stream<()> {
    let peer = SocketAddr::V4(SocketAddrV4 { ip: [192, 0, 2, 7], port: 40000 });
    let local = SocketAddr::V4(SocketAddrV4 { ip: [192, 0, 2, 1], port: 1081 });
    Stream::with((), peer, local)
}

#[test]
fn a_byte_is_put_in_front() {
    let framed = prepend_u8(BytesMut::from(&[1u8, 2, 3][..]), 9);
    assert_eq!(&framed[..], &[9, 1, 2, 3]);
}

#[test]
fn a_byte_is_put_in_front_of_nothing() {
    let framed = prepend_u8(BytesMut::new(), 5);
    assert_eq!(&framed[..], &[5]);
}

#[test]
fn a_byte_is_put_in_front_of_a_full_buffer() {
    let mut bytes = BytesMut::with_capacity(4);
    bytes.extend_from_slice(&[1, 2, 3, 4]);
    let framed = prepend_u8(bytes, 0);
    assert_eq!(&framed[..], &[0, 1, 2, 3, 4]);
}

#[test]
fn a_byte_is_put_in_front_within_the_room_that_is_there() {
    let mut bytes = BytesMut::with_capacity(64);
    bytes.extend_from_slice(&[1, 2, 3]);
    let place = bytes.as_ptr() as usize;
    let room = bytes.capacity();
    let framed = prepend_u8(bytes, 9);
    assert_eq!(&framed[..], &[9, 1, 2, 3]);
    assert_eq!(framed.as_ptr() as usize, place);
    assert_eq!(framed.capacity(), room);
}

#[test]
fn a_byte_is_put_in_front_of_a_part_of_a_buffer() {
    let mut bytes = BytesMut::from(&[1u8, 2, 3, 4, 5][..]);
    let front = bytes.split_to(2);
    assert_eq!(&prepend_u8(bytes, 7)[..], &[7, 3, 4, 5]);
    assert_eq!(&prepend_u8(front, 8)[..], &[8, 1, 2]);
}

#[test]
fn a_byte_is_put_in_front_twice() {
    let framed = prepend_u8(prepend_u8(BytesMut::from(&[3u8][..]), 2), 1);
    assert_eq!(&framed[..], &[1, 2, 3]);
}

#[test]
fn the_unspecified_address_grants_a_request() {
    let bytes = stream().write_response_unspecified();
    assert_eq!(&bytes[..], &[5, 0, 0, 1, 0, 0, 0, 0, 0, 0]);
    assert_eq!(bytes, stream().write_response(&Response::Success(Address::unspecified())));
}

#[test]
fn an_unsupported_command_is_refused() {
    let bytes = stream().write_response_unsupported();
    assert_eq!(&bytes[..], &[5, 7, 0, 1, 0, 0, 0, 0, 0, 0]);
    assert_eq!(bytes, stream().write_response(&Response::CommandNotSupported));
}

#[test]
fn every_refusal_names_its_code_and_the_unspecified_address() {
    let refusals = [
        Response::GeneralFailure,
        Response::ConnectionNotAllowed,
        Response::NetworkUnreachable,
        Response::HostUnreachable,
        Response::ConnectionRefused,
        Response::TtlExpired,
        Response::CommandNotSupported,
        Response::AddressTypeNotSupported,
    ];
    for (at, refusal) in refusals.iter().enumerate() {
        let code = at as u8 + 1;
        assert_eq!(refusal.as_u8(), code);
        assert_eq!(&stream().write_response(refusal)[..], &[5, code, 0, 1, 0, 0, 0, 0, 0, 0]);
    }
}

#[test]
fn a_relay_is_granted_at_the_server_with_its_own_port() {
    let stream = stream();
    let bound = match stream.local_addr() {
        SocketAddr::V4(v4) => SocketAddr::V4(SocketAddrV4 { ip: v4.ip, port: 0xC001 }),
        SocketAddr::V6(v6) => SocketAddr::V6(SocketAddrV6 { port: 0xC001, ..v6 }),
    };
    let address = Address::from(bound);
    let bytes = stream.write_response(&Response::Success(&address));
    assert_eq!(&bytes[..], &[5, 0, 0, 1, 192, 0, 2, 1, 0xC0, 0x01]);
}

#[test]
fn a_reply_names_an_ipv6_address() {
    let ip = [0xFE, 0x80, 0, 0, 0, 0, 0, 0, 0, 0, 0, 0, 0, 0, 0, 2];
    let address = Address::from(SocketAddr::V6(SocketAddrV6 { ip, port: 258, flowinfo: 1, scope_id: 2 }));
    let mut expected = vec![5, 0, 0, 4];
    expected.extend_from_slice(&ip);
    expected.extend_from_slice(&[1, 2]);
    assert_eq!(&stream().write_response(&Response::Success(&address))[..], &expected[..]);
}

#[test]
fn a_reply_names_a_domain() {
    let address = Address::Domain(Domain::from_bytes(b"relay".to_vec()).unwrap(), 9);
    let bytes = Response::Success(&address).to_bytes();
    assert_eq!(&bytes[..], &[0, 0, 3, 5, b'r', b'e', b'l', b'a', b'y', 0, 9]);
    assert_eq!(
        &stream().write_response(&Response::Success(&address))[..],
        &[5, 0, 0, 3, 5, b'r', b'e', b'l', b'a', b'y', 0, 9]
    );
}

#[test]
fn a_reply_is_read_back_by_the_client() {
    let address = Address::Domain(Domain::from_bytes(b"relay".to_vec()).unwrap(), 9);
    let mut wire = stream().write_response(&Response::Success(&address)).to_vec();
    wire.extend_from_slice(&stream().write_response_unsupported());
    assert_eq!(&wire[..3], &[5, 0, 0]);
    assert_eq!(Address::read(&wire[3..]), Ok(Step::Done(address)));
}
