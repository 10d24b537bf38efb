//! The address of a request's target or of a reply.

use vstd::prelude::*;

use crate::net::{SocketAddr, SocketAddrV4, SocketAddrV6};
use crate::v5::step::Step;

verus! {

/// The byte that announces an IPv4 address.
pub const ATYP_IPV4: u8 = 0x01;

/// The byte that announces a domain name.
pub const ATYP_DOMAIN: u8 = 0x03;

/// The byte that announces an IPv6 address.
pub const ATYP_IPV6: u8 = 0x04;

/// A domain name. Its length goes over the wire in one byte, so it has 255
/// bytes at most.
#[derive(Debug, PartialEq, Eq)]
pub struct Domain {
    name: Vec<u8>,
}

impl View for Domain {
    type V = Seq<u8>;

    closed spec fn view(&self) -> Seq<u8> {
        self.name@
    }
}

impl Domain {
    #[verifier::type_invariant]
    spec fn fits(self) -> bool {
        self.name@.len() <= 255
    }

    /// The domain name made of the given bytes, if one byte can hold their
    /// number.
    pub fn from_bytes(name: Vec<u8>) -> (domain: Option<Domain>)
        ensures
            match domain {
                Some(domain) => name@.len() <= 255 && domain@ == name@,
                None => name@.len() > 255,
            },
    {
        if name.len() <= 255 {
            Some(Domain { name })
        } else {
            None
        }
    }

    /// The bytes of the domain name.
    pub fn as_bytes(&self) -> (name: &[u8])
        ensures
            name@ == self@,
            name@.len() <= 255,
    {
        proof {
            use_type_invariant(self);
        }
        self.name.as_slice()
    }
}

/// Where a request goes to, or where a reply says that the server is bound.
#[derive(Debug, PartialEq, Eq)]
pub enum Address {
    IPv4(SocketAddrV4),
    IPv6(SocketAddrV6),
    Domain(Domain, u16),
}

impl From<SocketAddr> for Address {
    fn from(addr: SocketAddr) -> (address: Self)
        ensures
            addr matches SocketAddr::V4(v4) ==> address == Address::IPv4(v4),
            addr matches SocketAddr::V6(v6) ==> address == Address::IPv6(v6),
    {
        match addr {
            SocketAddr::V4(v4) => Address::IPv4(v4),
            SocketAddr::V6(v6) => Address::IPv6(v6),
        }
    }
}

impl vstd::std_specs::convert::FromSpecImpl<SocketAddr> for Address {
    open spec fn obeys_from_spec() -> bool {
        true
    }

    open spec fn from_spec(addr: SocketAddr) -> Self {
        match addr {
            SocketAddr::V4(v4) => Address::IPv4(v4),
            SocketAddr::V6(v6) => Address::IPv6(v6),
        }
    }
}

/// An address as a mathematical value.
pub enum AddressModel {
    IPv4 { ip: Seq<u8>, port: u16 },
    IPv6 { ip: Seq<u8>, port: u16, flowinfo: u32, scope_id: u32 },
    Domain { name: Seq<u8>, port: u16 },
}

impl View for Address {
    type V = AddressModel;

    open spec fn view(&self) -> AddressModel {
        match self {
            Address::IPv4(v4) => AddressModel::IPv4 { ip: v4.ip@, port: v4.port },
            Address::IPv6(v6) => AddressModel::IPv6 {
                ip: v6.ip@,
                port: v6.port,
                flowinfo: v6.flowinfo,
                scope_id: v6.scope_id,
            },
            Address::Domain(domain, port) => AddressModel::Domain { name: domain@, port: *port },
        }
    }
}

/// The two bytes of a port, the most significant first.
pub open spec fn port_wire(port: u16) -> Seq<u8> {
    seq![(port / 256) as u8, (port % 256) as u8]
}

/// The port that two bytes stand for, the most significant first.
pub open spec fn port_of(high: u8, low: u8) -> u16 {
    (high * 256 + low) as u16
}

impl AddressModel {
    /// Whether there are as many octets as the kind of address has.
    pub open spec fn wf(self) -> bool {
        match self {
            AddressModel::IPv4 { ip, .. } => ip.len() == 4,
            AddressModel::IPv6 { ip, .. } => ip.len() == 16,
            AddressModel::Domain { name, .. } => name.len() <= 255,
        }
    }

    /// An address as it goes over the wire: what kind it is, for a domain name
    /// its length, the address, the port.
    pub open spec fn wire(self) -> Seq<u8> {
        match self {
            AddressModel::IPv4 { ip, port } => seq![ATYP_IPV4] + ip + port_wire(port),
            AddressModel::IPv6 { ip, port, .. } => seq![ATYP_IPV6] + ip + port_wire(port),
            AddressModel::Domain { name, port } => seq![ATYP_DOMAIN, name.len() as u8] + name
                + port_wire(port),
        }
    }

    /// What the wire keeps of an address: all but an IPv6 flow label and scope.
    pub open spec fn on_wire(self) -> AddressModel {
        match self {
            AddressModel::IPv6 { ip, port, .. } => AddressModel::IPv6 {
                ip,
                port,
                flowinfo: 0,
                scope_id: 0,
            },
            _ => self,
        }
    }

    /// The IPv4 address and the port that are all zeros.
    pub open spec fn unspecified() -> AddressModel {
        AddressModel::IPv4 { ip: seq![0u8, 0u8, 0u8, 0u8], port: 0 }
    }
}

/// What the bytes of an address say, as far as they have arrived.
pub enum AddressStep {
    /// So many more are needed.
    Need(nat),
    /// All are there.
    Done(AddressModel),
    /// The first byte announces no kind of address.
    Refused(u8),
}

/// What the first bytes of `received` say of an address. Bytes behind the
/// address have no say.
pub open spec fn address_step(received: Seq<u8>) -> AddressStep {
    let len = received.len();
    if len < 1 {
        AddressStep::Need(1)
    } else if received[0] == ATYP_IPV4 {
        if len < 7 {
            AddressStep::Need((7 - len) as nat)
        } else {
            AddressStep::Done(
                AddressModel::IPv4 {
                    ip: received.subrange(1, 5),
                    port: port_of(received[5], received[6]),
                },
            )
        }
    } else if received[0] == ATYP_IPV6 {
        if len < 19 {
            AddressStep::Need((19 - len) as nat)
        } else {
            AddressStep::Done(
                AddressModel::IPv6 {
                    ip: received.subrange(1, 17),
                    port: port_of(received[17], received[18]),
                    flowinfo: 0,
                    scope_id: 0,
                },
            )
        }
    } else if received[0] == ATYP_DOMAIN {
        if len < 2 {
            AddressStep::Need(1)
        } else {
            let end = 2 + received[1];
            if len < end + 2 {
                AddressStep::Need((end + 2 - len) as nat)
            } else {
                AddressStep::Done(
                    AddressModel::Domain {
                        name: received.subrange(2, end),
                        port: port_of(received[end], received[end + 1]),
                    },
                )
            }
        }
    } else {
        AddressStep::Refused(received[0])
    }
}

/// The port that two bytes stand for, the most significant first.
fn read_port(high: u8, low: u8) -> (port: u16)
    ensures
        port == port_of(high, low),
        port == high * 256 + low,
{
    high as u16 * 256 + low as u16
}

/// Appends the two bytes of a port, the most significant first.
fn write_port(port: u16, wire: &mut Vec<u8>)
    ensures
        final(wire)@ == old(wire)@ + port_wire(port),
{
    wire.push((port / 256) as u8);
    wire.push((port % 256) as u8);
    assert(wire@ =~= old(wire)@ + port_wire(port));
}

impl Address {
    /// The IPv4 address and the port that are all zeros.
    pub fn unspecified() -> (address: &'static Address)
        ensures
            address@ == AddressModel::unspecified(),
            address matches Address::IPv4(v4) && v4.port == 0 && forall|i: int|
                0 <= i < 4 ==> #[trigger] v4.ip@[i] == 0,
    {
        let address: &'static Address = &Address::IPv4(
            SocketAddrV4 { ip: [0, 0, 0, 0], port: 0 },
        );
        assert(address@->IPv4_ip =~= seq![0u8, 0u8, 0u8, 0u8]);
        address
    }

    /// The bytes of this address.
    ///
    /// ```text
    ///  +------+----------+------+
    ///  | ATYP |   ADDR   | PORT |
    ///  +------+----------+------+
    ///  |  1   | Variable |  2   |
    ///  +------+----------+------+
    /// ```
    pub fn to_bytes(&self) -> (wire: Vec<u8>)
        ensures
            wire@ == self@.wire(),
            self@.wf(),
    {
        let mut wire: Vec<u8> = Vec::new();
        match self {
            Address::IPv4(v4) => {
                wire.push(ATYP_IPV4);
                wire.extend_from_slice(v4.ip.as_slice());
                assert(wire@ =~= seq![ATYP_IPV4] + v4.ip@);
                write_port(v4.port, &mut wire);
            },
            Address::IPv6(v6) => {
                wire.push(ATYP_IPV6);
                wire.extend_from_slice(v6.ip.as_slice());
                assert(wire@ =~= seq![ATYP_IPV6] + v6.ip@);
                write_port(v6.port, &mut wire);
            },
            Address::Domain(domain, port) => {
                let name = domain.as_bytes();
                wire.push(ATYP_DOMAIN);
                wire.push(name.len() as u8);
                wire.extend_from_slice(name);
                assert(wire@ =~= seq![ATYP_DOMAIN, domain@.len() as u8] + domain@);
                write_port(*port, &mut wire);
            },
        }
        wire
    }

    /// Reads an address off the bytes that arrived so far. If the first of them
    /// announces no kind of address, it is the error.
    pub fn read(received: &[u8]) -> (step: Result<Step<Address>, u8>)
        ensures
            match step {
                Ok(Step::Need(more)) => address_step(received@) == AddressStep::Need(more as nat),
                Ok(Step::Done(address)) => address_step(received@) == AddressStep::Done(address@),
                Err(kind) => address_step(received@) == AddressStep::Refused(kind),
            },
    {
        let len: usize = received.len();
        if len < 1 {
            return Ok(Step::Need(1));
        }
        let kind: u8 = received[0];
        if kind == ATYP_IPV4 {
            if len < 7 {
                return Ok(Step::Need(7 - len));
            }
            let ip: [u8; 4] = [received[1], received[2], received[3], received[4]];
            assert(ip@ =~= received@.subrange(1, 5));
            let port: u16 = read_port(received[5], received[6]);
            Ok(Step::Done(Address::IPv4(SocketAddrV4 { ip, port })))
        } else if kind == ATYP_IPV6 {
            if len < 19 {
                return Ok(Step::Need(19 - len));
            }
            let ip: [u8; 16] = [
                received[1], received[2], received[3], received[4],
                received[5], received[6], received[7], received[8],
                received[9], received[10], received[11], received[12],
                received[13], received[14], received[15], received[16],
            ];
            assert(ip@ =~= received@.subrange(1, 17));
            let port: u16 = read_port(received[17], received[18]);
            Ok(Step::Done(Address::IPv6(SocketAddrV6 { ip, port, flowinfo: 0, scope_id: 0 })))
        } else if kind == ATYP_DOMAIN {
            if len < 2 {
                return Ok(Step::Need(1));
            }
            let end: usize = 2 + received[1] as usize;
            if len < end + 2 {
                return Ok(Step::Need(end + 2 - len));
            }
            let mut name: Vec<u8> = Vec::new();
            name.extend_from_slice(&received[2..end]);
            assert(name@ =~= received@.subrange(2, end as int));
            let port: u16 = read_port(received[end], received[end + 1]);
            Ok(Step::Done(Address::Domain(Domain { name }, port)))
        } else {
            Err(kind)
        }
    }
}

/// Two bytes stand for the port that is the first times 256 plus the second.
pub proof fn law_port_value(high: u8, low: u8)
    ensures
        port_of(high, low) == high * 256 + low,
{
}

/// A port is written as two bytes, and is the first times 256 plus the second.
pub proof fn law_port_bytes(port: u16)
    ensures
        port_wire(port).len() == 2,
        port_wire(port)[0] * 256 + port_wire(port)[1] == port,
{
}

/// The address that a socket address is turned into is of its family and has its
/// octets, its port and, for IPv6, its flow label and scope.
pub proof fn law_address_from_socket(addr: SocketAddr)
    ensures
        ({
            let address = <Address as vstd::std_specs::convert::FromSpec<SocketAddr>>::from_spec(
                addr,
            );
            match addr {
                SocketAddr::V4(from) => address matches Address::IPv4(v4) && v4.port == from.port
                    && v4.ip@ == from.ip@ && address@ == (AddressModel::IPv4 {
                    ip: from.ip@,
                    port: from.port,
                }),
                SocketAddr::V6(from) => address matches Address::IPv6(v6) && v6.port == from.port
                    && v6.ip@ == from.ip@ && v6.flowinfo == from.flowinfo && v6.scope_id
                    == from.scope_id && address@ == (AddressModel::IPv6 {
                    ip: from.ip@,
                    port: from.port,
                    flowinfo: from.flowinfo,
                    scope_id: from.scope_id,
                }),
            }
        }),
{
}

/// An IPv4 address is written as a one, its octets in their order, and its port
/// with the high byte first.
pub proof fn law_ipv4_bytes(v4: SocketAddrV4)
    ensures
        ({
            let wire = Address::IPv4(v4)@.wire();
            &&& wire.len() == 7
            &&& wire[0] == 1
            &&& forall|i: int| 0 <= i < 4 ==> wire[1 + i] == #[trigger] v4.ip@[i]
            &&& wire[5] * 256 + wire[6] == v4.port
        }),
{
}

/// An IPv6 address is written as a four, its octets in their order, and its port
/// with the high byte first.
pub proof fn law_ipv6_bytes(v6: SocketAddrV6)
    ensures
        ({
            let wire = Address::IPv6(v6)@.wire();
            &&& wire.len() == 19
            &&& wire[0] == 4
            &&& forall|i: int| 0 <= i < 16 ==> wire[1 + i] == #[trigger] v6.ip@[i]
            &&& wire[17] * 256 + wire[18] == v6.port
        }),
{
}

/// A domain name is written as a three, its length, its bytes in their order, and
/// its port with the high byte first.
pub proof fn law_domain_bytes(domain: Domain, port: u16)
    requires
        domain@.len() <= 255,
    ensures
        ({
            let wire = Address::Domain(domain, port)@.wire();
            let len = domain@.len() as int;
            &&& wire.len() == len + 4
            &&& wire[0] == 3
            &&& wire[1] == len
            &&& forall|i: int| 0 <= i < len ==> wire[2 + i] == #[trigger] domain@[i]
            &&& wire[2 + len] * 256 + wire[3 + len] == port
        }),
{
}

/// The bytes that an address is read from say its kind, its octets or its name in
/// their order, and its port with the high byte first.
pub proof fn law_address_read(received: Seq<u8>, address: Address)
    requires
        address_step(received) == AddressStep::Done(address@),
    ensures
        match address {
            Address::IPv4(v4) => {
                &&& received.len() >= 7
                &&& received[0] == 1
                &&& forall|i: int| 0 <= i < 4 ==> #[trigger] v4.ip@[i] == received[1 + i]
                &&& v4.port == received[5] * 256 + received[6]
            },
            Address::IPv6(v6) => {
                &&& received.len() >= 19
                &&& received[0] == 4
                &&& forall|i: int| 0 <= i < 16 ==> #[trigger] v6.ip@[i] == received[1 + i]
                &&& v6.port == received[17] * 256 + received[18]
                &&& v6.flowinfo == 0
                &&& v6.scope_id == 0
            },
            Address::Domain(domain, port) => {
                let len = domain@.len() as int;
                &&& received.len() >= len + 4
                &&& received[0] == 3
                &&& received[1] == len
                &&& forall|i: int| 0 <= i < len ==> #[trigger] domain@[i] == received[2 + i]
                &&& port == received[2 + len] * 256 + received[3 + len]
            },
        },
{
    match address {
        Address::IPv4(v4) => {
            assert(v4.ip@ == received.subrange(1, 5));
        },
        Address::IPv6(v6) => {
            assert(v6.ip@ == received.subrange(1, 17));
        },
        Address::Domain(domain, port) => {
            assert(domain@ == received.subrange(2, 2 + received[1]));
        },
    }
}

/// An address is refused for its first byte alone, if that is neither one nor
/// three nor four; otherwise it is read as soon as seven bytes of an IPv4
/// address, nineteen of an IPv6 address or all that a domain name announces are
/// there, and until then no more than that is asked for.
pub proof fn law_address_outcome(received: Seq<u8>)
    ensures
        ({
            let len = received.len();
            let step = address_step(received);
            let known = len >= 1 && (received[0] == 1 || received[0] == 3 || received[0] == 4);
            &&& (step is Refused <==> len >= 1 && !known)
            &&& (step matches AddressStep::Refused(kind) ==> kind == received[0])
            &&& (step is Done <==> known && if received[0] == 1 {
                len >= 7
            } else if received[0] == 4 {
                len >= 19
            } else {
                len >= 2 && len >= 4 + received[1]
            })
            &&& (step matches AddressStep::Need(more) ==> more > 0 && if !known {
                len + more == 1
            } else if received[0] == 1 {
                len + more == 7
            } else if received[0] == 4 {
                len + more == 19
            } else if len < 2 {
                len + more == 2
            } else {
                len + more == 4 + received[1]
            })
        }),
{
}

/// The wire keeps the octets or the name and the port of an address, and of an
/// IPv6 address neither flow label nor scope.
pub proof fn law_on_wire(address: Address)
    ensures
        match address {
            Address::IPv4(v4) => address@.on_wire() == (AddressModel::IPv4 {
                ip: v4.ip@,
                port: v4.port,
            }),
            Address::IPv6(v6) => address@.on_wire() == (AddressModel::IPv6 {
                ip: v6.ip@,
                port: v6.port,
                flowinfo: 0,
                scope_id: 0,
            }),
            Address::Domain(domain, port) => address@.on_wire() == (AddressModel::Domain {
                name: domain@,
                port,
            }),
        },
{
}

/// Every address is well formed but one with a domain name that is too long.
pub proof fn law_address_wf(address: Address)
    ensures
        address@.wf() <==> (address matches Address::Domain(domain, _) ==> domain@.len() <= 255),
{
}

/// The unspecified address is the IPv4 address of which all octets and the port
/// are zero.
pub proof fn law_unspecified(address: Address)
    requires
        address@ == AddressModel::unspecified(),
    ensures
        address matches Address::IPv4(v4) && v4.port == 0 && forall|i: int|
            0 <= i < 4 ==> #[trigger] v4.ip@[i] == 0,
{
}

/// A port survives the way through its two bytes.
pub proof fn law_port_read_back(port: u16)
    ensures
        port_of(port_wire(port)[0], port_wire(port)[1]) == port,
{
}

/// Two bytes survive the way through the port that they stand for.
pub proof fn law_port_wire_back(high: u8, low: u8)
    ensures
        port_wire(port_of(high, low)) == seq![high, low],
{
}

/// What is read of an address that was written is what the wire keeps of it,
/// whatever follows on the wire.
pub proof fn law_address_read_back(address: AddressModel, rest: Seq<u8>)
    requires
        address.wf(),
    ensures
        address_step(address.wire() + rest) == AddressStep::Done(address.on_wire()),
{
    let wire = address.wire() + rest;
    match address {
        AddressModel::IPv4 { ip, port } => {
            law_port_read_back(port);
            assert(wire.subrange(1, 5) =~= ip);
        },
        AddressModel::IPv6 { ip, port, .. } => {
            law_port_read_back(port);
            assert(wire.subrange(1, 17) =~= ip);
        },
        AddressModel::Domain { name, port } => {
            law_port_read_back(port);
            assert(wire.subrange(2, 2 + name.len() as int) =~= name);
        },
    }
}

/// An address that is read is well formed, keeps nothing that the wire does not
/// hold, and is written as the very bytes that it was read from.
pub proof fn law_address_written_back(received: Seq<u8>)
    requires
        address_step(received) is Done,
    ensures
        ({
            let address = address_step(received)->Done_0;
            &&& address.wf()
            &&& address.on_wire() == address
            &&& address.wire().is_prefix_of(received)
        }),
{
    let address = address_step(received)->Done_0;
    match address {
        AddressModel::IPv4 { ip, port } => {
            law_port_wire_back(received[5], received[6]);
            assert(address.wire() =~= received.subrange(0, 7));
        },
        AddressModel::IPv6 { ip, port, .. } => {
            law_port_wire_back(received[17], received[18]);
            assert(address.wire() =~= received.subrange(0, 19));
        },
        AddressModel::Domain { name, port } => {
            let end = 2 + received[1];
            law_port_wire_back(received[end], received[end + 1]);
            assert(address.wire() =~= received.subrange(0, end + 2));
        },
    }
}

/// Once an address is read or refused, bytes that follow change nothing.
pub proof fn law_address_rest_ignored(received: Seq<u8>, rest: Seq<u8>)
    requires
        !(address_step(received) is Need),
    ensures
        address_step(received + rest) == address_step(received),
{
    match address_step(received) {
        AddressStep::Done(address) => {
            law_address_written_back(received);
            let wire = address.wire();
            let tail = received.skip(wire.len() as int) + rest;
            assert(received + rest =~= wire + tail);
            law_address_read_back(address, tail);
        },
        _ => {},
    }
}

/// While an address is incomplete, something is asked for, and never more than
/// what the address still lacks.
pub proof fn law_address_need(address: AddressModel, arrived: int)
    requires
        address.wf(),
        0 <= arrived < address.wire().len(),
    ensures
        ({
            let step = address_step(address.wire().take(arrived));
            &&& step is Need
            &&& 0 < step->Need_0 <= address.wire().len() - arrived
        }),
{
}

} // verus!
