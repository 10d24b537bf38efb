//! Authentication methods.

use vstd::prelude::*;

verus! {

/// An authentication method, as a client offers it and a server picks it.
#[derive(Clone, Copy, Debug, PartialEq, Eq)]
pub enum Method {
    /// No authentication is asked for.
    NoAuthentication,
    /// The generic security service interface.
    Gssapi,
    /// A user name and a password.
    UsernamePassword,
    /// A method from the range that is assigned by a registry.
    IanaAssigned(u8),
    /// A method from the range that is kept for private use.
    ReservedPrivate(u8),
    /// None of the offered methods will do.
    NoAcceptableMethod,
}

impl Method {
    /// The method that a byte stands for.
    pub open spec fn of(value: u8) -> Method {
        if value == 0x00 {
            Method::NoAuthentication
        } else if value == 0x01 {
            Method::Gssapi
        } else if value == 0x02 {
            Method::UsernamePassword
        } else if value < 0x80 {
            Method::IanaAssigned(value)
        } else if value < 0xFF {
            Method::ReservedPrivate(value)
        } else {
            Method::NoAcceptableMethod
        }
    }

    /// The byte that stands for a method.
    pub open spec fn code(self) -> u8 {
        match self {
            Method::NoAuthentication => 0x00,
            Method::Gssapi => 0x01,
            Method::UsernamePassword => 0x02,
            Method::IanaAssigned(value) => value,
            Method::ReservedPrivate(value) => value,
            Method::NoAcceptableMethod => 0xFF,
        }
    }

    /// Whether a byte that is carried along lies in the range of its variant.
    pub open spec fn in_range(self) -> bool {
        match self {
            Method::IanaAssigned(value) => 0x03 <= value < 0x80,
            Method::ReservedPrivate(value) => 0x80 <= value < 0xFF,
            _ => true,
        }
    }

    /// The method that a byte stands for. Every byte stands for one.
    pub fn from_u8(value: u8) -> (method: Self)
        ensures
            method == Method::of(value),
            0x03 <= value < 0x80 ==> method == Method::IanaAssigned(value),
            0x80 <= value < 0xFF ==> method == Method::ReservedPrivate(value),
    {
        match value {
            0x00 => Method::NoAuthentication,
            0x01 => Method::Gssapi,
            0x02 => Method::UsernamePassword,
            0x03..=0x7F => Method::IanaAssigned(value),
            0x80..=0xFE => Method::ReservedPrivate(value),
            0xFF => Method::NoAcceptableMethod,
        }
    }

    /// The byte that stands for this method.
    pub fn as_u8(&self) -> (value: u8)
        ensures
            value == self.code(),
            self matches Method::IanaAssigned(carried) ==> value == carried,
            self matches Method::ReservedPrivate(carried) ==> value == carried,
    {
        match self {
            Method::NoAuthentication => 0x00,
            Method::Gssapi => 0x01,
            Method::UsernamePassword => 0x02,
            Method::IanaAssigned(value) => *value,
            Method::ReservedPrivate(value) => *value,
            Method::NoAcceptableMethod => 0xFF,
        }
    }
}

/// The bytes zero to two and the last stand for methods of their own; a byte
/// between them stands for the method that carries that very byte, an assigned
/// one below 0x80 and a private one from there on.
pub proof fn law_method_by_byte(value: u8)
    ensures
        Method::of(value) is NoAuthentication <==> value == 0,
        Method::of(value) is Gssapi <==> value == 1,
        Method::of(value) is UsernamePassword <==> value == 2,
        Method::of(value) is NoAcceptableMethod <==> value == 255,
        3 <= value <= 127 <==> Method::of(value) is IanaAssigned,
        128 <= value <= 254 <==> Method::of(value) is ReservedPrivate,
        Method::of(value) matches Method::IanaAssigned(carried) ==> carried == value,
        Method::of(value) matches Method::ReservedPrivate(carried) ==> carried == value,
{
}

/// A method that carries a byte is told by that byte, and each other method by
/// its own.
pub proof fn law_byte_by_method(method: Method)
    ensures
        method is NoAuthentication ==> method.code() == 0,
        method is Gssapi ==> method.code() == 1,
        method is UsernamePassword ==> method.code() == 2,
        method is NoAcceptableMethod ==> method.code() == 255,
        method matches Method::IanaAssigned(carried) ==> method.code() == carried,
        method matches Method::ReservedPrivate(carried) ==> method.code() == carried,
{
}

/// Every byte survives the way through the method that it stands for.
pub proof fn law_method_of_byte(value: u8)
    ensures
        Method::of(value).code() == value,
        Method::of(value).in_range(),
{
}

/// Every method whose byte lies in the range of its variant survives the way
/// through that byte.
pub proof fn law_byte_of_method(method: Method)
    requires
        method.in_range(),
    ensures
        Method::of(method.code()) == method,
{
}

} // verus!
