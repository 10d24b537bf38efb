//! A connection of a client to the server.

use bytes::BytesMut;
use vstd::prelude::*;

use crate::net::{SocketAddr, SocketAddrV4, SocketAddrV6};
use crate::v5::address::{Address, AddressStep, Domain};
use crate::v5::buffer;
use crate::v5::method::Method;
use crate::v5::request::{Request, RequestError, RequestModel, RequestStep};
use crate::v5::response::Response;
use crate::v5::step::Step;

verus! {

/// The byte that every message of the server begins with.
pub const VERSION: u8 = 0x05;

/// A connection of a client: what carries its bytes, and the addresses of its
/// two ends.
pub struct Stream<T> {
    inner: T,
    peer_addr: SocketAddr,
    local_addr: SocketAddr,
}

/// A connection as a mathematical value.
pub struct StreamModel<T> {
    pub inner: T,
    pub peer_addr: SocketAddr,
    pub local_addr: SocketAddr,
}

impl<T> View for Stream<T> {
    type V = StreamModel<T>;

    closed spec fn view(&self) -> StreamModel<T> {
        StreamModel {
            inner: self.inner,
            peer_addr: self.peer_addr,
            local_addr: self.local_addr,
        }
    }
}

/// The greeting of a client: the version that it speaks, how many methods it
/// offers, and those.
pub open spec fn greeting(version: u8, methods: Seq<Method>) -> Seq<u8> {
    seq![version, methods.len() as u8] + methods.map_values(|method: Method| method.code())
}

/// How many bytes of a greeting are still to be read: of its first two bytes
/// those that are missing, and once they are there, what is missing of the
/// methods that the second of them counts.
pub open spec fn methods_needed(received: Seq<u8>) -> nat {
    let len = received.len();
    if len < 2 {
        (2 - len) as nat
    } else if len < 2 + received[1] {
        (2 + received[1] - len) as nat
    } else {
        0
    }
}

/// The methods that a complete greeting offers, in its order.
pub open spec fn methods_in(received: Seq<u8>) -> Seq<Method> {
    Seq::new(received[1] as nat, |i: int| Method::of(received[2 + i]))
}

/// What the first bytes of `received` say of a request with its version in
/// front. The version has no say.
pub open spec fn versioned_request_step(received: Seq<u8>) -> RequestStep {
    if received.len() < 1 {
        RequestStep::Need(1)
    } else {
        crate::v5::request::request_step(received.skip(1))
    }
}

/// A request as it goes over the wire, with its version in front.
pub open spec fn versioned_request(version: u8, request: RequestModel, reserved: u8) -> Seq<u8> {
    seq![version] + request.wire(reserved)
}

/// A reply as it goes over the wire, with the version in front.
pub open spec fn versioned_response(response: Response) -> Seq<u8> {
    seq![VERSION] + response.wire()
}

/// Where on the wire the reading of a greeting stops, if `taken` bytes have been
/// read and what is asked for is read again and again, as far as it is there.
pub open spec fn greeting_stop(wire: Seq<u8>, taken: nat) -> nat
    decreases wire.len() - taken,
{
    let more = methods_needed(wire.take(taken as int));
    if more == 0 || taken + more > wire.len() {
        taken
    } else {
        greeting_stop(wire, taken + more)
    }
}

/// Where on the wire the reading of a request stops, if `taken` bytes have been
/// read and what is asked for is read again and again, as far as it is there.
pub open spec fn request_stop(wire: Seq<u8>, taken: nat) -> nat
    decreases wire.len() - taken,
{
    match versioned_request_step(wire.take(taken as int)) {
        RequestStep::Need(more) => if more == 0 || taken + more > wire.len() {
            taken
        } else {
            request_stop(wire, taken + more)
        },
        _ => taken,
    }
}

impl<T> Stream<T> {
    /// The version of the protocol.
    pub fn version(&self) -> (version: u8)
        ensures
            version == 0x05,
            version == VERSION,
    {
        VERSION
    }

    /// The address of the client.
    pub fn peer_addr(&self) -> (addr: SocketAddr)
        ensures
            addr == self@.peer_addr,
    {
        self.peer_addr
    }

    /// The address of the server.
    pub fn local_addr(&self) -> (addr: SocketAddr)
        ensures
            addr == self@.local_addr,
    {
        self.local_addr
    }

    /// The connection that `inner` carries, between the given two ends.
    pub fn with(inner: T, peer_addr: SocketAddr, local_addr: SocketAddr) -> (stream: Self)
        ensures
            stream@ == (StreamModel { inner, peer_addr, local_addr }),
    {
        Stream { inner, peer_addr, local_addr }
    }

    /// What carries the bytes of the connection, to read from and to write to.
    pub fn inner_mut(&mut self) -> (inner: &mut T)
        ensures
            *inner == old(self)@.inner,
            final(self)@ == (StreamModel { inner: *final(inner), ..old(self)@ }),
    {
        &mut self.inner
    }

    /// Reads the methods that a client offers off the bytes that arrived so far.
    /// The version that the client names is not looked at.
    ///
    /// ```text
    ///  +----+----------+----------+
    ///  |VER | NMETHODS | METHODS  |
    ///  +----+----------+----------+
    ///  | 1  |    1     | 1 to 255 |
    ///  +----+----------+----------+
    /// ```
    pub fn read_methods(&self, received: &[u8]) -> (step: Step<Vec<Method>>)
        ensures
            match step {
                Step::Need(more) => more > 0 && more == methods_needed(received@),
                Step::Done(methods) => methods_needed(received@) == 0 && methods@ == methods_in(
                    received@,
                ),
            },
    {
        let len: usize = received.len();
        if len < 2 {
            return Step::Need(2 - len);
        }
        let end: usize = 2 + received[1] as usize;
        if len < end {
            return Step::Need(end - len);
        }
        let mut methods: Vec<Method> = Vec::new();
        let mut at: usize = 2;
        while at < end
            invariant
                2 <= at <= end <= received@.len(),
                methods@.len() == at - 2,
                forall|i: int|
                    0 <= i < at - 2 ==> #[trigger] methods@[i] == Method::of(received@[2 + i]),
            decreases end - at,
        {
            methods.push(Method::from_u8(received[at]));
            at = at + 1;
        }
        assert(methods@ =~= methods_in(received@));
        Step::Done(methods)
    }

    /// The bytes that tell a client which method the server picked.
    ///
    /// ```text
    ///  +----+--------+
    ///  |VER | METHOD |
    ///  +----+--------+
    ///  | 1  |   1    |
    ///  +----+--------+
    /// ```
    pub fn write_auth_method(&self, method: Method) -> (bytes: [u8; 2])
        ensures
            bytes@ == seq![VERSION, method.code()],
            bytes@[0] == 5,
            bytes@[1] == match method {
                Method::NoAuthentication => 0u8,
                Method::Gssapi => 1u8,
                Method::UsernamePassword => 2u8,
                Method::IanaAssigned(value) => value,
                Method::ReservedPrivate(value) => value,
                Method::NoAcceptableMethod => 255u8,
            },
    {
        let bytes: [u8; 2] = [self.version(), method.as_u8()];
        assert(bytes@ =~= seq![VERSION, method.code()]);
        bytes
    }

    /// Reads a request off the bytes that arrived so far. The version that the
    /// client names is not looked at.
    ///
    /// ```text
    ///  +----+-----+-------+------+----------+----------+
    ///  |VER | CMD |  RSV  | ATYP | DST.ADDR | DST.PORT |
    ///  +----+-----+-------+------+----------+----------+
    ///  | 1  |  1  | X'00' |  1   | Variable |    2     |
    ///  +----+-----+-------+------+----------+----------+
    /// ```
    pub fn read_request(&self, received: &[u8]) -> (step: Result<Step<Request>, RequestError>)
        ensures
            match step {
                Ok(Step::Need(more)) => more > 0 && versioned_request_step(received@)
                    == RequestStep::Need(more as nat),
                Ok(Step::Done(request)) => versioned_request_step(received@) == RequestStep::Done(
                    request@,
                ),
                Err(error) => versioned_request_step(received@) == RequestStep::Refused(error),
            },
    {
        let len: usize = received.len();
        if len < 1 {
            return Ok(Step::Need(1));
        }
        let behind = &received[1..len];
        assert(behind@ =~= received@.skip(1));
        Request::read(behind)
    }

    /// The bytes that answer a request.
    ///
    /// ```text
    ///  +----+-----+-------+------+----------+----------+
    ///  |VER | REP |  RSV  | ATYP | BND.ADDR | BND.PORT |
    ///  +----+-----+-------+------+----------+----------+
    ///  | 1  |  1  | X'00' |  1   | Variable |    2     |
    ///  +----+-----+-------+------+----------+----------+
    /// ```
    pub fn write_response(&self, response: &Response) -> (bytes: BytesMut)
        ensures
            buffer::contents(bytes) == versioned_response(*response),
            response.bound().wf(),
            *response matches Response::Success(address) ==> buffer::contents(bytes) == seq![
                5u8,
                0u8,
                0u8,
            ] + address@.wire(),
    {
        proof {
            if let Response::Success(address) = *response {
                crate::v5::response::law_success_bytes(*address);
                assert(seq![5u8] + response.wire() =~= seq![5u8, 0u8, 0u8] + address@.wire());
            }
        }
        buffer::prepend_u8(response.to_bytes(), self.version())
    }

    /// The bytes that grant a request and name the unspecified address.
    pub fn write_response_unspecified(&self) -> (bytes: BytesMut)
        ensures
            buffer::contents(bytes) == seq![VERSION, 0x00, 0x00, 0x01, 0, 0, 0, 0, 0, 0],
    {
        let bytes = self.write_response(&Response::Success(Address::unspecified()));
        assert(buffer::contents(bytes) =~= seq![VERSION, 0x00, 0x00, 0x01, 0, 0, 0, 0, 0, 0]);
        bytes
    }

    /// The bytes that refuse a request because its command is not supported.
    pub fn write_response_unsupported(&self) -> (bytes: BytesMut)
        ensures
            buffer::contents(bytes) == seq![VERSION, 0x07, 0x00, 0x01, 0, 0, 0, 0, 0, 0],
    {
        let bytes = self.write_response(&Response::CommandNotSupported);
        assert(buffer::contents(bytes) =~= seq![VERSION, 0x07, 0x00, 0x01, 0, 0, 0, 0, 0, 0]);
        bytes
    }
}

/// How many bytes a greeting still lacks: of two, and then of the two and as many
/// as the second of them counts.
pub proof fn law_greeting_lacks(received: Seq<u8>)
    ensures
        received.len() < 2 ==> received.len() + methods_needed(received) == 2,
        received.len() >= 2 && received.len() <= 2 + received[1] ==> received.len()
            + methods_needed(received) == 2 + received[1],
        received.len() >= 2 && received.len() > 2 + received[1] ==> methods_needed(received) == 0,
{
}

/// A greeting is the version, the number of the methods, and the byte of each in
/// their order.
pub proof fn law_greeting_bytes(version: u8, methods: Seq<Method>)
    requires
        methods.len() <= 255,
    ensures
        greeting(version, methods).len() == 2 + methods.len(),
        greeting(version, methods)[0] == version,
        greeting(version, methods)[1] == methods.len(),
        forall|i: int|
            0 <= i < methods.len() ==> greeting(version, methods)[2 + i] == (
            #[trigger] methods[i]).code(),
{
}

/// As many methods are read as the second byte counts, and each is the one that
/// its own byte stands for, in the order in which the bytes came.
pub proof fn law_methods_read(received: Seq<u8>)
    requires
        methods_needed(received) == 0,
    ensures
        received.len() >= 2 + received[1],
        methods_in(received).len() == received[1],
        forall|i: int|
            0 <= i < received[1] ==> match #[trigger] methods_in(received)[i] {
                Method::NoAuthentication => received[2 + i] == 0,
                Method::Gssapi => received[2 + i] == 1,
                Method::UsernamePassword => received[2 + i] == 2,
                Method::IanaAssigned(value) => 3 <= value <= 127 && received[2 + i] == value,
                Method::ReservedPrivate(value) => 128 <= value <= 254 && received[2 + i] == value,
                Method::NoAcceptableMethod => received[2 + i] == 255,
            },
{
    assert forall|i: int| 0 <= i < received[1] implies #[trigger] methods_in(received)[i]
        == Method::of(received[2 + i]) by {}
}

/// The methods that are read of a greeting are those that it was made of,
/// whatever version it names and whatever follows on the wire.
pub proof fn law_greeting_read_back(version: u8, methods: Seq<Method>, rest: Seq<u8>)
    requires
        methods.len() <= 255,
        forall|i: int| 0 <= i < methods.len() ==> (#[trigger] methods[i]).in_range(),
    ensures
        methods_needed(greeting(version, methods) + rest) == 0,
        methods_in(greeting(version, methods) + rest) == methods,
{
    let wire = greeting(version, methods) + rest;
    assert forall|i: int| 0 <= i < methods.len() implies Method::of(wire[2 + i]) == methods[i] by {
        crate::v5::method::law_byte_of_method(methods[i]);
    }
    assert(methods_in(wire) =~= methods);
}

/// The methods that are read are written, with the version that came, as the
/// very bytes that they were read from.
pub proof fn law_greeting_written_back(received: Seq<u8>)
    requires
        methods_needed(received) == 0,
    ensures
        greeting(received[0], methods_in(received)).is_prefix_of(received),
{
    let wire = greeting(received[0], methods_in(received));
    assert forall|i: int| 2 <= i < 2 + received[1] implies wire[i] == received[i] by {
        crate::v5::method::law_method_of_byte(received[i]);
    }
    assert(wire =~= received.subrange(0, 2 + received[1]));
}

/// Once a greeting is complete, bytes that follow change nothing.
pub proof fn law_greeting_rest_ignored(received: Seq<u8>, rest: Seq<u8>)
    requires
        methods_needed(received) == 0,
    ensures
        methods_needed(received + rest) == 0,
        methods_in(received + rest) == methods_in(received),
{
    assert(methods_in(received + rest) =~= methods_in(received));
}

/// While a greeting is incomplete, something is asked for, and never more than
/// what the greeting still lacks.
pub proof fn law_greeting_need(version: u8, methods: Seq<Method>, arrived: int)
    requires
        methods.len() <= 255,
        0 <= arrived < greeting(version, methods).len(),
    ensures
        0 < methods_needed(greeting(version, methods).take(arrived)) <= greeting(
            version,
            methods,
        ).len() - arrived,
{
}

/// A greeting is read in two goes: its first two bytes, then as many as the
/// second of them counts.
pub proof fn law_greeting_two_reads(head: Seq<u8>, offered: Seq<u8>)
    requires
        head.len() == 2,
        offered.len() == head[1],
    ensures
        methods_needed(Seq::empty()) == 2,
        methods_needed(head) == offered.len(),
        methods_needed(head + offered) == 0,
        methods_in(head + offered) == offered.map_values(|value: u8| Method::of(value)),
{
    assert(methods_in(head + offered) =~= offered.map_values(|value: u8| Method::of(value)));
}

/// From any place within a greeting, reading stops at its end.
proof fn lemma_greeting_stop(version: u8, methods: Seq<Method>, rest: Seq<u8>, taken: nat)
    requires
        methods.len() <= 255,
        taken <= greeting(version, methods).len(),
    ensures
        greeting_stop(greeting(version, methods) + rest, taken) == greeting(version, methods).len(),
    decreases greeting(version, methods).len() - taken,
{
    let message = greeting(version, methods);
    assert((message + rest).take(taken as int) =~= message.take(taken as int));
    if taken < message.len() {
        law_greeting_need(version, methods, taken as int);
        let more = methods_needed(message.take(taken as int));
        lemma_greeting_stop(version, methods, rest, taken + more);
    }
}

/// Whoever reads what is asked for reads a greeting whole, and not one byte of
/// what follows it.
pub proof fn law_greeting_stop(version: u8, methods: Seq<Method>, rest: Seq<u8>)
    requires
        methods.len() <= 255,
    ensures
        greeting_stop(greeting(version, methods) + rest, 0) == greeting(version, methods).len(),
{
    lemma_greeting_stop(version, methods, rest, 0);
}

/// The version that a client names in its greeting changes nothing.
pub proof fn law_greeting_version_ignored(received: Seq<u8>, version: u8)
    requires
        received.len() > 0,
    ensures
        methods_needed(received.update(0, version)) == methods_needed(received),
        methods_needed(received) == 0 ==> methods_in(received.update(0, version)) == methods_in(
            received,
        ),
{
    if methods_needed(received) == 0 {
        assert(methods_in(received.update(0, version)) =~= methods_in(received));
    }
}

/// The bytes that a request is read from say, behind the version, its command
/// and, behind the reserved byte, the kind of its address, its octets or its name
/// in their order, and its port with the high byte first.
pub proof fn law_versioned_request_read(received: Seq<u8>, request: Request)
    requires
        versioned_request_step(received) == RequestStep::Done(request@),
    ensures
        received[1] == 1 <==> request is Connect,
        received[1] == 2 <==> request is Bind,
        received[1] == 3 <==> request is Associate,
        ({
            let address = match request {
                Request::Connect(address) => address,
                Request::Bind(address) => address,
                Request::Associate(address) => address,
            };
            match address {
                Address::IPv4(v4) => {
                    &&& received.len() >= 10
                    &&& received[3] == 1
                    &&& forall|i: int| 0 <= i < 4 ==> #[trigger] v4.ip@[i] == received[4 + i]
                    &&& v4.port == received[8] * 256 + received[9]
                },
                Address::IPv6(v6) => {
                    &&& received.len() >= 22
                    &&& received[3] == 4
                    &&& forall|i: int| 0 <= i < 16 ==> #[trigger] v6.ip@[i] == received[4 + i]
                    &&& v6.port == received[20] * 256 + received[21]
                    &&& v6.flowinfo == 0
                    &&& v6.scope_id == 0
                },
                Address::Domain(domain, port) => {
                    let len = domain@.len() as int;
                    &&& received.len() >= len + 7
                    &&& received[3] == 3
                    &&& received[4] == len
                    &&& forall|i: int| 0 <= i < len ==> #[trigger] domain@[i] == received[5 + i]
                    &&& port == received[5 + len] * 256 + received[6 + len]
                },
            }
        }),
{
    crate::v5::request::law_request_read(received.skip(1), request);
    assert forall|i: int| 0 <= i < received.len() - 1 implies #[trigger] received.skip(1)[i]
        == received[i + 1] by {}
}

/// A request is refused for its command, if that is none of one, two and three,
/// or else for the kind of its address, if that is neither one nor three nor
/// four. Otherwise it is read as soon as its address is there, and until then no
/// more than that is asked for.
pub proof fn law_versioned_request_outcome(received: Seq<u8>)
    ensures
        ({
            let len = received.len();
            let step = versioned_request_step(received);
            let command = len >= 3 && 1 <= received[1] <= 3;
            let kind = command && len >= 4 && (received[3] == 1 || received[3] == 3 || received[3]
                == 4);
            &&& (step == RequestStep::Refused(RequestError::UnknownCommand(received[1])) <==> len
                >= 3 && !command)
            &&& (step == RequestStep::Refused(RequestError::UnknownAddressType(received[3]))
                <==> command && len >= 4 && !kind)
            &&& (step is Refused <==> (len >= 3 && !command) || (command && len >= 4 && !kind))
            &&& (step is Done <==> kind && if received[3] == 1 {
                len >= 10
            } else if received[3] == 4 {
                len >= 22
            } else {
                len >= 5 && len >= 7 + received[4]
            })
            &&& (step matches RequestStep::Need(more) ==> more > 0 && if len < 1 {
                len + more == 1
            } else if len < 3 {
                len + more == 3
            } else if len < 4 {
                len + more == 4
            } else if received[3] == 1 {
                len + more == 10
            } else if received[3] == 4 {
                len + more == 22
            } else if len < 5 {
                len + more == 5
            } else {
                len + more == 7 + received[4]
            })
        }),
{
    if received.len() >= 1 {
        crate::v5::request::law_request_outcome(received.skip(1));
    }
}

/// What is read of a request that was written is what the wire keeps of it,
/// whatever version it names, whatever the reserved byte holds and whatever
/// follows on the wire.
pub proof fn law_versioned_request_read_back(
    version: u8,
    request: RequestModel,
    reserved: u8,
    rest: Seq<u8>,
)
    requires
        request.wf(),
    ensures
        versioned_request_step(versioned_request(version, request, reserved) + rest)
            == RequestStep::Done(request.on_wire()),
{
    let wire = versioned_request(version, request, reserved) + rest;
    assert(wire.skip(1) =~= request.wire(reserved) + rest);
    crate::v5::request::law_request_read_back(request, reserved, rest);
}

/// A request that is read is well formed, and is written, with the version and
/// the reserved byte that came, as the very bytes that it was read from.
pub proof fn law_versioned_request_written_back(received: Seq<u8>)
    requires
        versioned_request_step(received) is Done,
    ensures
        ({
            let request = versioned_request_step(received)->Done_0;
            &&& request.wf()
            &&& versioned_request(received[0], request, received[2]).is_prefix_of(received)
        }),
{
    let request = versioned_request_step(received)->Done_0;
    let behind = received.skip(1);
    crate::v5::request::law_request_written_back(behind);
    let wire = request.wire(received[2]);
    let len = wire.len() as int;
    assert(behind.subrange(0, len) =~= wire);
    assert forall|i: int| 0 <= i < len implies received[i + 1] == wire[i] by {
        assert(behind.subrange(0, len)[i] == behind[i]);
    }
    assert(versioned_request(received[0], request, received[2]) =~= received.subrange(0, len + 1));
}

/// Once a request is read or refused, bytes that follow change nothing.
pub proof fn law_versioned_request_rest_ignored(received: Seq<u8>, rest: Seq<u8>)
    requires
        !(versioned_request_step(received) is Need),
    ensures
        versioned_request_step(received + rest) == versioned_request_step(received),
{
    assert((received + rest).skip(1) =~= received.skip(1) + rest);
    crate::v5::request::law_request_rest_ignored(received.skip(1), rest);
}

/// While a request is incomplete, something is asked for, and never more than
/// what the request still lacks.
pub proof fn law_versioned_request_need(
    version: u8,
    request: RequestModel,
    reserved: u8,
    arrived: int,
)
    requires
        request.wf(),
        0 <= arrived < versioned_request(version, request, reserved).len(),
    ensures
        ({
            let wire = versioned_request(version, request, reserved);
            let step = versioned_request_step(wire.take(arrived));
            &&& step is Need
            &&& 0 < step->Need_0 <= wire.len() - arrived
        }),
{
    let wire = versioned_request(version, request, reserved);
    if arrived >= 1 {
        assert(wire.take(arrived).skip(1) =~= request.wire(reserved).take(arrived - 1));
        crate::v5::request::law_request_need(request, reserved, arrived - 1);
    }
}

/// From any place within a request, reading stops at its end.
proof fn lemma_request_stop(
    version: u8,
    request: RequestModel,
    reserved: u8,
    rest: Seq<u8>,
    taken: nat,
)
    requires
        request.wf(),
        taken <= versioned_request(version, request, reserved).len(),
    ensures
        request_stop(versioned_request(version, request, reserved) + rest, taken)
            == versioned_request(version, request, reserved).len(),
    decreases versioned_request(version, request, reserved).len() - taken,
{
    let message = versioned_request(version, request, reserved);
    assert((message + rest).take(taken as int) =~= message.take(taken as int));
    if taken < message.len() {
        law_versioned_request_need(version, request, reserved, taken as int);
        let more = versioned_request_step(message.take(taken as int))->Need_0;
        lemma_request_stop(version, request, reserved, rest, taken + more);
    } else {
        law_versioned_request_read_back(version, request, reserved, Seq::empty());
        assert(message.take(taken as int) =~= message + Seq::<u8>::empty());
    }
}

/// Whoever reads what is asked for reads a request whole, and not one byte of
/// what follows it.
pub proof fn law_request_stop(version: u8, request: RequestModel, reserved: u8, rest: Seq<u8>)
    requires
        request.wf(),
    ensures
        request_stop(versioned_request(version, request, reserved) + rest, 0)
            == versioned_request(version, request, reserved).len(),
{
    lemma_request_stop(version, request, reserved, rest, 0);
}

/// The version that a client names in its request changes nothing.
pub proof fn law_request_version_ignored(received: Seq<u8>, version: u8)
    requires
        received.len() > 0,
    ensures
        versioned_request_step(received.update(0, version)) == versioned_request_step(received),
{
    assert(received.update(0, version).skip(1) =~= received.skip(1));
}

/// Whatever address a reply grants, its bytes follow the version and two zeros,
/// and what is read of them is what the wire keeps of that address.
pub proof fn law_success_reply(address: Address, rest: Seq<u8>)
    requires
        address@.wf(),
    ensures
        versioned_response(Response::Success(&address)) == seq![5u8, 0u8, 0u8] + address@.wire(),
        crate::v5::address::address_step(
            (versioned_response(Response::Success(&address)) + rest).skip(3),
        ) == AddressStep::Done(address@.on_wire()),
{
    crate::v5::response::law_success_bytes(address);
    let wire = versioned_response(Response::Success(&address));
    assert(wire =~= seq![5u8, 0u8, 0u8] + address@.wire());
    assert((wire + rest).skip(3) =~= address@.wire() + rest);
    crate::v5::address::law_address_read_back(address@, rest);
}

/// A reply that grants an IPv4 address names its octets in their order and its
/// port with the high byte first.
pub proof fn law_success_reply_ipv4(v4: SocketAddrV4)
    ensures
        ({
            let wire = versioned_response(Response::Success(&Address::IPv4(v4)));
            &&& wire.len() == 10
            &&& wire[0] == 5 && wire[1] == 0 && wire[2] == 0 && wire[3] == 1
            &&& forall|i: int| 0 <= i < 4 ==> wire[4 + i] == #[trigger] v4.ip@[i]
            &&& wire[8] * 256 + wire[9] == v4.port
        }),
{
    crate::v5::address::law_ipv4_bytes(v4);
    let address = Address::IPv4(v4);
    crate::v5::response::law_success_bytes(address);
    let wire = versioned_response(Response::Success(&address));
    assert(wire =~= seq![5u8, 0u8, 0u8] + address@.wire());
}

/// A reply that grants an IPv6 address names its octets in their order and its
/// port with the high byte first.
pub proof fn law_success_reply_ipv6(v6: SocketAddrV6)
    ensures
        ({
            let wire = versioned_response(Response::Success(&Address::IPv6(v6)));
            &&& wire.len() == 22
            &&& wire[0] == 5 && wire[1] == 0 && wire[2] == 0 && wire[3] == 4
            &&& forall|i: int| 0 <= i < 16 ==> wire[4 + i] == #[trigger] v6.ip@[i]
            &&& wire[20] * 256 + wire[21] == v6.port
        }),
{
    crate::v5::address::law_ipv6_bytes(v6);
    let address = Address::IPv6(v6);
    crate::v5::response::law_success_bytes(address);
    let wire = versioned_response(Response::Success(&address));
    assert(wire =~= seq![5u8, 0u8, 0u8] + address@.wire());
}

/// A reply that grants a domain name gives its length, its bytes in their order
/// and its port with the high byte first.
pub proof fn law_success_reply_domain(domain: Domain, port: u16)
    requires
        domain@.len() <= 255,
    ensures
        ({
            let wire = versioned_response(Response::Success(&Address::Domain(domain, port)));
            let len = domain@.len() as int;
            &&& wire.len() == len + 7
            &&& wire[0] == 5 && wire[1] == 0 && wire[2] == 0 && wire[3] == 3
            &&& wire[4] == len
            &&& forall|i: int| 0 <= i < len ==> wire[5 + i] == #[trigger] domain@[i]
            &&& wire[5 + len] * 256 + wire[6 + len] == port
        }),
{
    crate::v5::address::law_domain_bytes(domain, port);
    let address = Address::Domain(domain, port);
    crate::v5::response::law_success_bytes(address);
    let wire = versioned_response(Response::Success(&address));
    assert(wire =~= seq![5u8, 0u8, 0u8] + address@.wire());
}

/// A client that reads a reply finds the version, the code, a zero and what the
/// wire keeps of the address, whatever follows on the wire.
pub proof fn law_response_read_back(response: Response, rest: Seq<u8>)
    requires
        response.bound().wf(),
    ensures
        ({
            let wire = versioned_response(response) + rest;
            &&& wire[0] == VERSION
            &&& wire[1] == response.code()
            &&& wire[2] == 0
            &&& crate::v5::address::address_step(wire.skip(3)) == AddressStep::Done(
                response.bound().on_wire(),
            )
        }),
{
    let wire = versioned_response(response) + rest;
    assert(wire.skip(3) =~= response.bound().wire() + rest);
    crate::v5::address::law_address_read_back(response.bound(), rest);
}

/// Replies that are sent one after the other can be told apart: where the same
/// bytes begin with either of two replies, both have the same code and, as far
/// as the wire keeps it, the same address, and what follows them is the same.
pub proof fn law_responses_told_apart(
    one: Response,
    behind_one: Seq<u8>,
    other: Response,
    behind_other: Seq<u8>,
)
    requires
        one.bound().wf(),
        other.bound().wf(),
        versioned_response(one) + behind_one == versioned_response(other) + behind_other,
    ensures
        one.code() == other.code(),
        one.bound().on_wire() == other.bound().on_wire(),
        behind_one == behind_other,
{
    law_response_read_back(one, behind_one);
    law_response_read_back(other, behind_other);
    assert(one.bound().wire() == one.bound().on_wire().wire());
    assert(other.bound().wire() == other.bound().on_wire().wire());
    let len = versioned_response(one).len() as int;
    assert((versioned_response(one) + behind_one).skip(len) =~= behind_one);
    assert((versioned_response(other) + behind_other).skip(len) =~= behind_other);
}

/// A reply that grants nothing says so in ten bytes, of which the second is its
/// code.
pub proof fn law_refusal_bytes(response: Response)
    requires
        !(response is Success),
    ensures
        versioned_response(response) == seq![VERSION, response.code(), 0, 1, 0, 0, 0, 0, 0, 0],
        response.code() != 0,
        versioned_response(response)[0] == 5,
        versioned_response(response)[1] == match response {
            Response::Success(_) => 0u8,
            Response::GeneralFailure => 1u8,
            Response::ConnectionNotAllowed => 2u8,
            Response::NetworkUnreachable => 3u8,
            Response::HostUnreachable => 4u8,
            Response::ConnectionRefused => 5u8,
            Response::TtlExpired => 6u8,
            Response::CommandNotSupported => 7u8,
            Response::AddressTypeNotSupported => 8u8,
        },
{
    assert(versioned_response(response) =~= seq![
        VERSION,
        response.code(),
        0,
        1,
        0,
        0,
        0,
        0,
        0,
        0,
    ]);
}

} // verus!
