use socks_lib::net::{SocketAddr, SocketAddrV4, SocketAddrV6};
use socks_lib::v5::{Method, Step, Stream};

fn client() -> SocketAddr {
    SocketAddr::V4(SocketAddrV4 { ip: [192, 0, 2, 7], port: 40000 })
}

fn server() -> SocketAddr {
    SocketAddr::V6(SocketAddrV6 {
        ip: [0x20, 0x01, 0x0d, 0xb8, 0, 0, 0, 0, 0, 0, 0, 0, 0, 0, 0, 1],
        port: 1080,
        flowinfo: 3,
        scope_id: 9,
    })
}

fn stream() -> Stream<()> {
    Stream::with((), client(), server())
}

/// Reads what is asked for off the front of `wire`, and says what came of it
/// and how many bytes each read took.
fn read(wire: &[u8]) -> (Vec<Method>, Vec<usize>) {
    let stream = stream();
    let mut reads = Vec::new();
    let mut taken = 0;
    loop {
        match stream.read_methods(&wire[..taken]) {
            Step::Need(more) => {
                reads.push(more);
                taken += more;
            }
            Step::Done(methods) => return (methods, reads),
        }
    }
}

#[test]
fn a_stream_knows_its_version_and_its_ends() {
    let stream = stream();
    assert_eq!(stream.version(), 5);
    assert_eq!(stream.peer_addr(), client());
    assert_eq!(stream.local_addr(), server());
}

#[test]
fn the_ends_are_not_mixed_up() {
    let stream = Stream::with((), server(), client());
    assert_eq!(stream.peer_addr(), server());
    assert_eq!(stream.local_addr(), client());
}

#[test]
fn what_carries_a_stream_can_be_written_to() {
    let mut stream = Stream::with(vec![1u8], client(), server());
    stream.inner_mut().push(2);
    assert_eq!(stream.inner_mut(), &vec![1u8, 2]);
    assert_eq!(stream.peer_addr(), client());
    assert_eq!(stream.local_addr(), server());
}

#[test]
fn a_greeting_is_read_in_two_goes() {
    let (methods, reads) = read(&[5, 3, 0, 1, 2]);
    assert_eq!(methods, vec![Method::NoAuthentication, Method::Gssapi, Method::UsernamePassword]);
    assert_eq!(reads, vec![2, 3]);
}

#[test]
fn one_method() {
    let (methods, reads) = read(&[5, 1, 2]);
    assert_eq!(methods, vec![Method::UsernamePassword]);
    assert_eq!(reads, vec![2, 1]);
}

#[test]
fn no_method() {
    let (methods, reads) = read(&[5, 0]);
    assert_eq!(methods, vec![]);
    assert_eq!(reads, vec![2]);
}

#[test]
fn as_many_methods_as_can_be() {
    let mut wire = vec![5u8, 255];
    wire.extend((0..255u8).rev());
    let (methods, reads) = read(&wire);
    assert_eq!(methods.len(), 255);
    assert_eq!(methods[0], Method::ReservedPrivate(254));
    assert_eq!(methods[254], Method::NoAuthentication);
    assert_eq!(reads, vec![2, 255]);
}

#[test]
fn bytes_behind_a_greeting_are_left_alone() {
    let (methods, reads) = read(&[5, 1, 0, 5, 1, 0, 1]);
    assert_eq!(methods, vec![Method::NoAuthentication]);
    assert_eq!(reads, vec![2, 1]);
    assert_eq!(
        stream().read_methods(&[5, 1, 0, 5, 1, 0, 1]),
        Step::Done(vec![Method::NoAuthentication])
    );
}

#[test]
fn the_version_of_a_greeting_is_not_looked_at() {
    assert_eq!(read(&[4, 2, 0, 2]), read(&[5, 2, 0, 2]));
    assert_eq!(stream().read_methods(&[0]), stream().read_methods(&[5]));
}

#[test]
fn an_incomplete_greeting_asks_for_what_it_lacks() {
    let stream = stream();
    assert_eq!(stream.read_methods(&[]), Step::Need(2));
    assert_eq!(stream.read_methods(&[5]), Step::Need(1));
    assert_eq!(stream.read_methods(&[5, 4]), Step::Need(4));
    assert_eq!(stream.read_methods(&[5, 4, 0, 0, 0]), Step::Need(1));
}

#[test]
fn every_byte_stands_for_a_method_and_back() {
    for value in 0..=255u8 {
        assert_eq!(Method::from_u8(value).as_u8(), value);
    }
}

#[test]
fn the_methods_and_their_ranges() {
    assert_eq!(Method::from_u8(0x00), Method::NoAuthentication);
    assert_eq!(Method::from_u8(0x01), Method::Gssapi);
    assert_eq!(Method::from_u8(0x02), Method::UsernamePassword);
    assert_eq!(Method::from_u8(0x03), Method::IanaAssigned(0x03));
    assert_eq!(Method::from_u8(0x7F), Method::IanaAssigned(0x7F));
    assert_eq!(Method::from_u8(0x80), Method::ReservedPrivate(0x80));
    assert_eq!(Method::from_u8(0xFE), Method::ReservedPrivate(0xFE));
    assert_eq!(Method::from_u8(0xFF), Method::NoAcceptableMethod);
}

#[test]
fn the_picked_method_is_told() {
    assert_eq!(stream().write_auth_method(Method::NoAuthentication), [5, 0]);
    assert_eq!(stream().write_auth_method(Method::UsernamePassword), [5, 2]);
    assert_eq!(stream().write_auth_method(Method::ReservedPrivate(0x90)), [5, 0x90]);
    assert_eq!(stream().write_auth_method(Method::NoAcceptableMethod), [5, 0xFF]);
}
