//! What a server answers.

use bytes::BytesMut;
use vstd::prelude::*;

use crate::v5::address::{Address, AddressModel};
use crate::v5::buffer;

verus! {

/// The reply to a request.
#[derive(Clone, Copy, Debug, PartialEq, Eq)]
pub enum Response<'a> {
    /// The request is granted; this is where the server is bound.
    Success(&'a Address),
    GeneralFailure,
    ConnectionNotAllowed,
    NetworkUnreachable,
    HostUnreachable,
    ConnectionRefused,
    TtlExpired,
    CommandNotSupported,
    AddressTypeNotSupported,
}

impl<'a> Response<'a> {
    /// The byte that stands for a reply.
    pub open spec fn code(self) -> u8 {
        match self {
            Response::Success(_) => 0x00,
            Response::GeneralFailure => 0x01,
            Response::ConnectionNotAllowed => 0x02,
            Response::NetworkUnreachable => 0x03,
            Response::HostUnreachable => 0x04,
            Response::ConnectionRefused => 0x05,
            Response::TtlExpired => 0x06,
            Response::CommandNotSupported => 0x07,
            Response::AddressTypeNotSupported => 0x08,
        }
    }

    /// The address that a reply carries: the one that it grants, or, where it
    /// grants none, the unspecified one.
    pub open spec fn bound(self) -> AddressModel {
        match self {
            Response::Success(address) => address@,
            _ => AddressModel::unspecified(),
        }
    }

    /// A reply as it goes over the wire behind the version: the code, the
    /// reserved byte, the address.
    pub open spec fn wire(self) -> Seq<u8> {
        seq![self.code(), 0x00u8] + self.bound().wire()
    }

    /// The byte that stands for this reply.
    pub fn as_u8(&self) -> (code: u8)
        ensures
            code == self.code(),
    {
        match self {
            Response::Success(_) => 0x00,
            Response::GeneralFailure => 0x01,
            Response::ConnectionNotAllowed => 0x02,
            Response::NetworkUnreachable => 0x03,
            Response::HostUnreachable => 0x04,
            Response::ConnectionRefused => 0x05,
            Response::TtlExpired => 0x06,
            Response::CommandNotSupported => 0x07,
            Response::AddressTypeNotSupported => 0x08,
        }
    }

    /// The bytes of this reply, behind the version.
    ///
    /// ```text
    ///  +-----+-------+------+----------+----------+
    ///  | REP |  RSV  | ATYP | BND.ADDR | BND.PORT |
    ///  +-----+-------+------+----------+----------+
    ///  |  1  | X'00' |  1   | Variable |    2     |
    ///  +-----+-------+------+----------+----------+
    /// ```
    pub fn to_bytes(&self) -> (bytes: BytesMut)
        ensures
            buffer::contents(bytes) == self.wire(),
            self.bound().wf(),
            self matches Response::Success(address) ==> buffer::contents(bytes) == seq![0u8, 0u8]
                + address@.wire(),
    {
        let mut wire: Vec<u8> = Vec::new();
        wire.push(self.as_u8());
        wire.push(0x00);
        let mut address: Vec<u8> = match self {
            Response::Success(address) => address.to_bytes(),
            _ => Address::unspecified().to_bytes(),
        };
        wire.append(&mut address);
        assert(wire@ =~= self.wire());
        buffer::from_slice(wire.as_slice())
    }
}

/// Whatever address a reply grants, its bytes follow two zeros.
pub proof fn law_success_bytes(address: Address)
    ensures
        Response::Success(&address).wire() == seq![0u8, 0u8] + address@.wire(),
        Response::Success(&address).bound() == address@,
{
}

/// Each reply has a code of its own, zero if it grants the request.
pub proof fn law_reply_codes(response: Response)
    ensures
        response is Success <==> response.code() == 0,
        response is GeneralFailure <==> response.code() == 1,
        response is ConnectionNotAllowed <==> response.code() == 2,
        response is NetworkUnreachable <==> response.code() == 3,
        response is HostUnreachable <==> response.code() == 4,
        response is ConnectionRefused <==> response.code() == 5,
        response is TtlExpired <==> response.code() == 6,
        response is CommandNotSupported <==> response.code() == 7,
        response is AddressTypeNotSupported <==> response.code() == 8,
{
}

} // verus!
