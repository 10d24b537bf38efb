//! What a client asks for.

use vstd::prelude::*;

use crate::v5::address::{Address, AddressModel, AddressStep};
use crate::v5::step::Step;

verus! {

/// The byte that asks for a connection to the address.
pub const CMD_CONNECT: u8 = 0x01;

/// The byte that asks for a connection from the address.
pub const CMD_BIND: u8 = 0x02;

/// The byte that asks for datagrams to be relayed.
pub const CMD_ASSOCIATE: u8 = 0x03;

/// A request of a client.
#[derive(Debug, PartialEq, Eq)]
pub enum Request {
    Connect(Address),
    Bind(Address),
    Associate(Address),
}

/// Why a request cannot be read.
#[derive(Clone, Copy, Debug, PartialEq, Eq)]
pub enum RequestError {
    /// The byte stands for no command.
    UnknownCommand(u8),
    /// The byte announces no kind of address.
    UnknownAddressType(u8),
}

/// A request as a mathematical value: the byte of its command, and its address.
pub struct RequestModel {
    pub command: u8,
    pub address: AddressModel,
}

impl View for Request {
    type V = RequestModel;

    open spec fn view(&self) -> RequestModel {
        match self {
            Request::Connect(address) => RequestModel { command: CMD_CONNECT, address: address@ },
            Request::Bind(address) => RequestModel { command: CMD_BIND, address: address@ },
            Request::Associate(address) => RequestModel {
                command: CMD_ASSOCIATE,
                address: address@,
            },
        }
    }
}

/// Whether a byte stands for a command.
pub open spec fn is_command(command: u8) -> bool {
    command == CMD_CONNECT || command == CMD_BIND || command == CMD_ASSOCIATE
}

impl RequestModel {
    /// Whether there is such a command and such an address.
    pub open spec fn wf(self) -> bool {
        is_command(self.command) && self.address.wf()
    }

    /// A request as it goes over the wire behind the version: the command, the
    /// reserved byte, the address.
    pub open spec fn wire(self, reserved: u8) -> Seq<u8> {
        seq![self.command, reserved] + self.address.wire()
    }

    /// What the wire keeps of a request.
    pub open spec fn on_wire(self) -> RequestModel {
        RequestModel { command: self.command, address: self.address.on_wire() }
    }
}

/// What the bytes of a request say, as far as they have arrived.
pub enum RequestStep {
    /// So many more are needed.
    Need(nat),
    /// All are there.
    Done(RequestModel),
    /// They make no request.
    Refused(RequestError),
}

/// What the first bytes of `received`, which follow the version, say of a
/// request. The reserved byte has no say, nor have bytes behind the request.
pub open spec fn request_step(received: Seq<u8>) -> RequestStep {
    let len = received.len();
    if len < 2 {
        RequestStep::Need((2 - len) as nat)
    } else if !is_command(received[0]) {
        RequestStep::Refused(RequestError::UnknownCommand(received[0]))
    } else {
        match crate::v5::address::address_step(received.skip(2)) {
            AddressStep::Need(more) => RequestStep::Need(more),
            AddressStep::Done(address) => RequestStep::Done(
                RequestModel { command: received[0], address },
            ),
            AddressStep::Refused(kind) => RequestStep::Refused(
                RequestError::UnknownAddressType(kind),
            ),
        }
    }
}

impl Request {
    /// Reads a request off the bytes that arrived so far behind the version.
    ///
    /// ```text
    ///  +-----+-------+------+----------+----------+
    ///  | CMD |  RSV  | ATYP | DST.ADDR | DST.PORT |
    ///  +-----+-------+------+----------+----------+
    ///  |  1  | X'00' |  1   | Variable |    2     |
    ///  +-----+-------+------+----------+----------+
    /// ```
    pub fn read(received: &[u8]) -> (step: Result<Step<Request>, RequestError>)
        ensures
            match step {
                Ok(Step::Need(more)) => request_step(received@) == RequestStep::Need(more as nat),
                Ok(Step::Done(request)) => request_step(received@) == RequestStep::Done(request@),
                Err(error) => request_step(received@) == RequestStep::Refused(error),
            },
    {
        let len: usize = received.len();
        if len < 2 {
            return Ok(Step::Need(2 - len));
        }
        let command: u8 = received[0];
        if command != CMD_CONNECT && command != CMD_BIND && command != CMD_ASSOCIATE {
            return Err(RequestError::UnknownCommand(command));
        }
        let behind = &received[2..len];
        assert(behind@ =~= received@.skip(2));
        match Address::read(behind) {
            Ok(Step::Need(more)) => Ok(Step::Need(more)),
            Ok(Step::Done(address)) => {
                if command == CMD_CONNECT {
                    Ok(Step::Done(Request::Connect(address)))
                } else if command == CMD_BIND {
                    Ok(Step::Done(Request::Bind(address)))
                } else {
                    Ok(Step::Done(Request::Associate(address)))
                }
            },
            Err(kind) => Err(RequestError::UnknownAddressType(kind)),
        }
    }
}

/// The bytes that a request is read from say its command and, behind the reserved
/// byte, the kind of its address, its octets or its name in their order, and its
/// port with the high byte first.
pub proof fn law_request_read(received: Seq<u8>, request: Request)
    requires
        request_step(received) == RequestStep::Done(request@),
    ensures
        received[0] == 1 <==> request is Connect,
        received[0] == 2 <==> request is Bind,
        received[0] == 3 <==> request is Associate,
        ({
            let address = match request {
                Request::Connect(address) => address,
                Request::Bind(address) => address,
                Request::Associate(address) => address,
            };
            match address {
                Address::IPv4(v4) => {
                    &&& received.len() >= 9
                    &&& received[2] == 1
                    &&& forall|i: int| 0 <= i < 4 ==> #[trigger] v4.ip@[i] == received[3 + i]
                    &&& v4.port == received[7] * 256 + received[8]
                },
                Address::IPv6(v6) => {
                    &&& received.len() >= 21
                    &&& received[2] == 4
                    &&& forall|i: int| 0 <= i < 16 ==> #[trigger] v6.ip@[i] == received[3 + i]
                    &&& v6.port == received[19] * 256 + received[20]
                    &&& v6.flowinfo == 0
                    &&& v6.scope_id == 0
                },
                Address::Domain(domain, port) => {
                    let len = domain@.len() as int;
                    &&& received.len() >= len + 6
                    &&& received[2] == 3
                    &&& received[3] == len
                    &&& forall|i: int| 0 <= i < len ==> #[trigger] domain@[i] == received[4 + i]
                    &&& port == received[4 + len] * 256 + received[5 + len]
                },
            }
        }),
{
    let address = match request {
        Request::Connect(address) => address,
        Request::Bind(address) => address,
        Request::Associate(address) => address,
    };
    crate::v5::address::law_address_read(received.skip(2), address);
    assert forall|i: int| 0 <= i < received.len() - 2 implies #[trigger] received.skip(2)[i]
        == received[i + 2] by {}
}

/// A request is refused for its command, if that is none of one, two and three,
/// or else for the kind of its address, if that is neither one nor three nor
/// four. Otherwise it is read as soon as its address is there, and until then no
/// more than that is asked for.
pub proof fn law_request_outcome(received: Seq<u8>)
    ensures
        ({
            let len = received.len();
            let step = request_step(received);
            let command = len >= 2 && 1 <= received[0] <= 3;
            let kind = command && len >= 3 && (received[2] == 1 || received[2] == 3 || received[2]
                == 4);
            &&& (step == RequestStep::Refused(RequestError::UnknownCommand(received[0])) <==> len
                >= 2 && !command)
            &&& (step == RequestStep::Refused(RequestError::UnknownAddressType(received[2]))
                <==> command && len >= 3 && !kind)
            &&& (step is Refused <==> (len >= 2 && !command) || (command && len >= 3 && !kind))
            &&& (step is Done <==> kind && if received[2] == 1 {
                len >= 9
            } else if received[2] == 4 {
                len >= 21
            } else {
                len >= 4 && len >= 6 + received[3]
            })
            &&& (step matches RequestStep::Need(more) ==> more > 0 && if len < 2 {
                len + more == 2
            } else if len < 3 {
                len + more == 3
            } else if received[2] == 1 {
                len + more == 9
            } else if received[2] == 4 {
                len + more == 21
            } else if len < 4 {
                len + more == 4
            } else {
                len + more == 6 + received[3]
            })
        }),
{
    if received.len() >= 2 {
        crate::v5::address::law_address_outcome(received.skip(2));
    }
}

/// A request is written as its command, the reserved byte and its address.
pub proof fn law_request_bytes(request: Request, reserved: u8)
    ensures
        match request {
            Request::Connect(address) => request@.wire(reserved) == seq![1u8, reserved]
                + address@.wire(),
            Request::Bind(address) => request@.wire(reserved) == seq![2u8, reserved]
                + address@.wire(),
            Request::Associate(address) => request@.wire(reserved) == seq![3u8, reserved]
                + address@.wire(),
        },
{
}

/// What is read of a request that was written is what the wire keeps of it,
/// whatever the reserved byte holds and whatever follows on the wire.
pub proof fn law_request_read_back(request: RequestModel, reserved: u8, rest: Seq<u8>)
    requires
        request.wf(),
    ensures
        request_step(request.wire(reserved) + rest) == RequestStep::Done(request.on_wire()),
{
    let wire = request.wire(reserved) + rest;
    assert(wire.skip(2) =~= request.address.wire() + rest);
    crate::v5::address::law_address_read_back(request.address, rest);
}

/// A request that is read is well formed, keeps nothing that the wire does not
/// hold, and is written, with the reserved byte that came, as the very bytes
/// that it was read from.
pub proof fn law_request_written_back(received: Seq<u8>)
    requires
        request_step(received) is Done,
    ensures
        ({
            let request = request_step(received)->Done_0;
            &&& request.wf()
            &&& request.on_wire() == request
            &&& request.wire(received[1]).is_prefix_of(received)
        }),
{
    let request = request_step(received)->Done_0;
    let behind = received.skip(2);
    crate::v5::address::law_address_written_back(behind);
    let address = request.address.wire();
    let len = address.len() as int;
    assert(behind.subrange(0, len) =~= address);
    assert forall|i: int| 0 <= i < len implies received[i + 2] == address[i] by {
        assert(behind.subrange(0, len)[i] == behind[i]);
    }
    assert(request.wire(received[1]) =~= received.subrange(0, len + 2));
}

/// Once a request is read or refused, bytes that follow change nothing.
pub proof fn law_request_rest_ignored(received: Seq<u8>, rest: Seq<u8>)
    requires
        !(request_step(received) is Need),
    ensures
        request_step(received + rest) == request_step(received),
{
    if is_command(received[0]) {
        assert((received + rest).skip(2) =~= received.skip(2) + rest);
        crate::v5::address::law_address_rest_ignored(received.skip(2), rest);
    }
}

/// While a request is incomplete, something is asked for, and never more than
/// what the request still lacks.
pub proof fn law_request_need(request: RequestModel, reserved: u8, arrived: int)
    requires
        request.wf(),
        0 <= arrived < request.wire(reserved).len(),
    ensures
        ({
            let step = request_step(request.wire(reserved).take(arrived));
            &&& step is Need
            &&& 0 < step->Need_0 <= request.wire(reserved).len() - arrived
        }),
{
    let part = request.wire(reserved).take(arrived);
    if arrived >= 2 {
        assert(part.skip(2) =~= request.address.wire().take(arrived - 2));
        crate::v5::address::law_address_need(request.address, arrived - 2);
    }
}

} // verus!
