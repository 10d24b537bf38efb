use socks_lib::net::{SocketAddr, SocketAddrV4, SocketAddrV6};
use socks_lib::v5::{Address, Domain, Request, RequestError, Step, Stream};

fn stream() -> Stream<()> {
    let end = SocketAddr::V4(SocketAddrV4 { ip: [127, 0, 0, 1], port: 1080 });
    Stream::with((), end, end)
}

/// Reads what is asked for off the front of `wire`, and says what came of it
/// and how many bytes were taken in all.
fn read(wire: &[u8]) -> (Result<Request, RequestError>, usize) {
    let stream = stream();
    let mut taken = 0;
    loop {
        match stream.read_request(&wire[..taken]) {
            Ok(Step::Need(more)) => taken += more,
            Ok(Step::Done(request)) => return (Ok(request), taken),
            Err(error) => return (Err(error), taken),
        }
    }
}

fn example() -> Domain {
    Domain::from_bytes(b"example.org".to_vec()).unwrap()
}

#[test]
fn connect_to_an_ipv4_address() {
    let wire = [5, 1, 0, 1, 192, 0, 2, 1, 0x01, 0xBB];
    let target = SocketAddrV4 { ip: [192, 0, 2, 1], port: 443 };
    assert_eq!(read(&wire), (Ok(Request::Connect(Address::IPv4(target))), 10));
}

#[test]
fn bind_for_an_ipv6_address() {
    let ip = [0x20, 0x01, 0x0d, 0xb8, 1, 2, 3, 4, 5, 6, 7, 8, 9, 10, 11, 12];
    let mut wire = vec![5, 2, 0, 4];
    wire.extend_from_slice(&ip);
    wire.extend_from_slice(&[0xFF, 0xFE]);
    let target = SocketAddrV6 { ip, port: 65534, flowinfo: 0, scope_id: 0 };
    assert_eq!(read(&wire), (Ok(Request::Bind(Address::IPv6(target))), 22));
}

#[test]
fn associate_with_a_domain_name() {
    let mut wire = vec![5, 3, 0, 3, 11];
    wire.extend_from_slice(b"example.org");
    wire.extend_from_slice(&[0, 53]);
    assert_eq!(read(&wire), (Ok(Request::Associate(Address::Domain(example(), 53))), 18));
    assert_eq!(example().as_bytes(), b"example.org");
}

#[test]
fn a_domain_name_may_be_empty_or_as_long_as_its_length_can_say() {
    let (request, taken) = read(&[5, 1, 0, 3, 0, 0, 80]);
    assert_eq!(request, Ok(Request::Connect(Address::Domain(Domain::from_bytes(vec![]).unwrap(), 80))));
    assert_eq!(taken, 7);

    let mut wire = vec![5, 1, 0, 3, 255];
    wire.extend_from_slice(&[b'x'; 255]);
    wire.extend_from_slice(&[0, 80]);
    let longest = Domain::from_bytes(vec![b'x'; 255]).unwrap();
    assert_eq!(read(&wire), (Ok(Request::Connect(Address::Domain(longest, 80))), 262));
}

#[test]
fn a_domain_name_that_is_too_long_cannot_be_made() {
    assert!(Domain::from_bytes(vec![b'x'; 256]).is_none());
}

#[test]
fn an_unknown_command_is_refused() {
    for command in [0u8, 4, 0x80, 255] {
        let wire = [5, command, 0, 1, 0, 0, 0, 0, 0, 0];
        assert_eq!(read(&wire), (Err(RequestError::UnknownCommand(command)), 3));
    }
}

#[test]
fn an_unknown_kind_of_address_is_refused() {
    for kind in [0u8, 2, 5, 255] {
        let wire = [5, 1, 0, kind, 0, 0, 0, 0, 0, 0];
        assert_eq!(read(&wire), (Err(RequestError::UnknownAddressType(kind)), 4));
    }
}

#[test]
fn neither_version_nor_reserved_byte_of_a_request_is_looked_at() {
    let plain = read(&[5, 1, 0, 1, 10, 0, 0, 1, 0, 22]);
    assert_eq!(read(&[4, 1, 0, 1, 10, 0, 0, 1, 0, 22]), plain);
    assert_eq!(read(&[5, 1, 9, 1, 10, 0, 0, 1, 0, 22]), plain);
}

#[test]
fn bytes_behind_a_request_are_left_alone() {
    let wire = [5, 1, 0, 1, 10, 0, 0, 1, 0, 22, b'S', b'S', b'H'];
    assert_eq!(read(&wire), read(&wire[..10]));
    let target = SocketAddrV4 { ip: [10, 0, 0, 1], port: 22 };
    assert_eq!(
        stream().read_request(&wire),
        Ok(Step::Done(Request::Connect(Address::IPv4(target))))
    );
}

#[test]
fn an_incomplete_request_asks_for_what_it_lacks() {
    let stream = stream();
    assert_eq!(stream.read_request(&[]), Ok(Step::Need(1)));
    assert_eq!(stream.read_request(&[5]), Ok(Step::Need(2)));
    assert_eq!(stream.read_request(&[5, 1]), Ok(Step::Need(1)));
    assert_eq!(stream.read_request(&[5, 1, 0]), Ok(Step::Need(1)));
    assert_eq!(stream.read_request(&[5, 1, 0, 1]), Ok(Step::Need(6)));
    assert_eq!(stream.read_request(&[5, 1, 0, 4]), Ok(Step::Need(18)));
    assert_eq!(stream.read_request(&[5, 1, 0, 3]), Ok(Step::Need(1)));
    assert_eq!(stream.read_request(&[5, 1, 0, 3, 4]), Ok(Step::Need(6)));
    assert_eq!(stream.read_request(&[5, 1, 0, 3, 4, b'h', b'o', b's', b't', 0]), Ok(Step::Need(1)));
}

#[test]
fn an_address_is_read_back_as_it_was_written() {
    let v4 = Address::IPv4(SocketAddrV4 { ip: [198, 51, 100, 3], port: 0x1234 });
    let v6 = Address::IPv6(SocketAddrV6 { ip: [7; 16], port: 0xABCD, flowinfo: 0, scope_id: 0 });
    let named = Address::Domain(example(), 8080);
    for address in [v4, v6, named] {
        let mut wire = address.to_bytes();
        wire.push(0xEE);
        assert_eq!(Address::read(&wire), Ok(Step::Done(address)));
    }
}

#[test]
fn the_wire_drops_the_flow_label_and_the_scope() {
    let whole = Address::IPv6(SocketAddrV6 { ip: [7; 16], port: 1, flowinfo: 5, scope_id: 6 });
    let kept = Address::IPv6(SocketAddrV6 { ip: [7; 16], port: 1, flowinfo: 0, scope_id: 0 });
    assert_eq!(Address::read(&whole.to_bytes()), Ok(Step::Done(kept)));
}

#[test]
fn an_address_is_written_back_as_it_was_read() {
    let wire = [3, 2, b'h', b'i', 0x1F, 0x90, 1, 2];
    match Address::read(&wire) {
        Ok(Step::Done(address)) => assert_eq!(address.to_bytes(), wire[..6].to_vec()),
        _ => panic!("an address was expected"),
    }
}

#[test]
fn a_request_without_its_version() {
    let target = SocketAddrV4 { ip: [1, 2, 3, 4], port: 5 };
    assert_eq!(
        Request::read(&[1, 0, 1, 1, 2, 3, 4, 0, 5]),
        Ok(Step::Done(Request::Connect(Address::IPv4(target))))
    );
    assert_eq!(Request::read(&[]), Ok(Step::Need(2)));
}
