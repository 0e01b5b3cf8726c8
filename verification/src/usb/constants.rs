//! Request codes and bit fields of the SETUP packet's `bmRequestType` byte,
//! and the descriptor-type codes.
//!
//! Every conversion from a raw byte is total: a value outside the table
//! decodes to `None` instead of panicking or mapping to a wrong variant.

use vstd::prelude::*;

verus! {

/// Standard request codes carried in `bRequest`.
#[derive(Debug, Copy, Clone, PartialEq, Eq, Structural)]
pub enum UsbRequest {
    GetStatus,
    ClearFeature,
    Two,
    SetFeature,
    SetAddress,
    GetDescriptor,
    SetDescriptor,
    GetConfiguration,
    SetConfiguration,
    GetInterface,
    SetInterface,
    SynchFrame,
}

impl UsbRequest {
    /// The code of this request on the wire.
    pub open spec fn spec_byte(self) -> u8 {
        match self {
            UsbRequest::GetStatus => 0x00,
            UsbRequest::ClearFeature => 0x01,
            UsbRequest::Two => 0x02,
            UsbRequest::SetFeature => 0x03,
            UsbRequest::SetAddress => 0x05,
            UsbRequest::GetDescriptor => 0x06,
            UsbRequest::SetDescriptor => 0x07,
            UsbRequest::GetConfiguration => 0x08,
            UsbRequest::SetConfiguration => 0x09,
            UsbRequest::GetInterface => 0x0a,
            UsbRequest::SetInterface => 0x0b,
            UsbRequest::SynchFrame => 0x0c,
        }
    }

    /// Whether `b` is a known request code.
    pub open spec fn spec_is_code(b: u8) -> bool {
        b <= 0x0c && b != 0x04
    }

    /// The request a code byte decodes to, if any.
    pub open spec fn spec_from_byte(b: u8) -> Option<UsbRequest> {
        if b == 0x00 {
            Some(UsbRequest::GetStatus)
        } else if b == 0x01 {
            Some(UsbRequest::ClearFeature)
        } else if b == 0x02 {
            Some(UsbRequest::Two)
        } else if b == 0x03 {
            Some(UsbRequest::SetFeature)
        } else if b == 0x05 {
            Some(UsbRequest::SetAddress)
        } else if b == 0x06 {
            Some(UsbRequest::GetDescriptor)
        } else if b == 0x07 {
            Some(UsbRequest::SetDescriptor)
        } else if b == 0x08 {
            Some(UsbRequest::GetConfiguration)
        } else if b == 0x09 {
            Some(UsbRequest::SetConfiguration)
        } else if b == 0x0a {
            Some(UsbRequest::GetInterface)
        } else if b == 0x0b {
            Some(UsbRequest::SetInterface)
        } else if b == 0x0c {
            Some(UsbRequest::SynchFrame)
        } else {
            None
        }
    }

    pub fn to_byte(self) -> (r: u8)
        ensures
            r == self.spec_byte(),
    {
        match self {
            UsbRequest::GetStatus => 0x00,
            UsbRequest::ClearFeature => 0x01,
            UsbRequest::Two => 0x02,
            UsbRequest::SetFeature => 0x03,
            UsbRequest::SetAddress => 0x05,
            UsbRequest::GetDescriptor => 0x06,
            UsbRequest::SetDescriptor => 0x07,
            UsbRequest::GetConfiguration => 0x08,
            UsbRequest::SetConfiguration => 0x09,
            UsbRequest::GetInterface => 0x0a,
            UsbRequest::SetInterface => 0x0b,
            UsbRequest::SynchFrame => 0x0c,
        }
    }

    /// Total decode of a request code.
    pub fn from_byte(b: u8) -> (r: Option<UsbRequest>)
        ensures
            r == UsbRequest::spec_from_byte(b),
            r is Some <==> UsbRequest::spec_is_code(b),
            r matches Some(q) ==> q.spec_byte() == b,
    {
        match b {
            0x00 => Some(UsbRequest::GetStatus),
            0x01 => Some(UsbRequest::ClearFeature),
            0x02 => Some(UsbRequest::Two),
            0x03 => Some(UsbRequest::SetFeature),
            0x05 => Some(UsbRequest::SetAddress),
            0x06 => Some(UsbRequest::GetDescriptor),
            0x07 => Some(UsbRequest::SetDescriptor),
            0x08 => Some(UsbRequest::GetConfiguration),
            0x09 => Some(UsbRequest::SetConfiguration),
            0x0a => Some(UsbRequest::GetInterface),
            0x0b => Some(UsbRequest::SetInterface),
            0x0c => Some(UsbRequest::SynchFrame),
            _ => None,
        }
    }
}

/// Transfer direction, bit 7 of `bmRequestType`.
#[derive(Debug, Copy, Clone, PartialEq, Eq, Structural)]
pub enum Direction {
    OUT,
    IN,
}

impl Direction {
    /// The field's value placed at its position within `bmRequestType`.
    pub open spec fn spec_bits(self) -> u8 {
        match self {
            Direction::OUT => 0x00,
            Direction::IN => 0x80,
        }
    }

    /// Which direction a `bmRequestType` byte carries; every byte decodes.
    pub open spec fn spec_from_bits(bits: u8) -> Option<Direction> {
        if bits & 0x80 == 0x80 {
            Some(Direction::IN)
        } else {
            Some(Direction::OUT)
        }
    }

    pub fn to_bits(self) -> (r: u8)
        ensures
            r == self.spec_bits(),
    {
        match self {
            Direction::OUT => 0x00,
            Direction::IN => 0x80,
        }
    }

    pub fn from_bits(bits: u8) -> (r: Option<Direction>)
        ensures
            r == Direction::spec_from_bits(bits),
            r matches Some(d) && d.spec_bits() == bits & 0x80,
    {
        proof {
            assert((bits & 0x80 == 0x80 <==> (bits >> 7) & 0x01 == 0x01)
                && (bits & 0x80 == 0x80 || bits & 0x80 == 0x00)) by (bit_vector);
        }
        if (bits >> 7) & 0x01 == 0x01 {
            Some(Direction::IN)
        } else {
            Some(Direction::OUT)
        }
    }
}

/// Request class, bits 6:5 of `bmRequestType`.
#[derive(Debug, Copy, Clone, PartialEq, Eq, Structural)]
pub enum Type {
    Standard,
    Class,
    Vendor,
}

impl Type {
    /// The field's value placed at its position within `bmRequestType`.
    pub open spec fn spec_bits(self) -> u8 {
        match self {
            Type::Standard => 0x00,
            Type::Class => 0x20,
            Type::Vendor => 0x40,
        }
    }

    /// The class a `bmRequestType` byte carries, if not the reserved one.
    pub open spec fn spec_from_bits(bits: u8) -> Option<Type> {
        if bits & 0x60 == 0x00 {
            Some(Type::Standard)
        } else if bits & 0x60 == 0x20 {
            Some(Type::Class)
        } else if bits & 0x60 == 0x40 {
            Some(Type::Vendor)
        } else {
            None
        }
    }

    pub fn to_bits(self) -> (r: u8)
        ensures
            r == self.spec_bits(),
    {
        match self {
            Type::Standard => 0x00,
            Type::Class => 0x20,
            Type::Vendor => 0x40,
        }
    }

    /// Total decode; the reserved pattern yields `None`.
    pub fn from_bits(bits: u8) -> (r: Option<Type>)
        ensures
            r == Type::spec_from_bits(bits),
            r is Some <==> bits & 0x60 != 0x60,
            r matches Some(t) ==> t.spec_bits() == bits & 0x60,
    {
        proof {
            assert((((bits >> 5) & 0x03) == 0 <==> bits & 0x60 == 0x00)
                && (((bits >> 5) & 0x03) == 1 <==> bits & 0x60 == 0x20)
                && (((bits >> 5) & 0x03) == 2 <==> bits & 0x60 == 0x40)
                && (((bits >> 5) & 0x03) == 3 <==> bits & 0x60 == 0x60)
                && ((bits >> 5) & 0x03) <= 3) by (bit_vector);
        }
        let field = (bits >> 5) & 0x03;
        if field == 0 {
            Some(Type::Standard)
        } else if field == 1 {
            Some(Type::Class)
        } else if field == 2 {
            Some(Type::Vendor)
        } else {
            None
        }
    }
}

/// Request recipient, bits 4:0 of `bmRequestType` (low two bits used).
#[derive(Debug, Copy, Clone, PartialEq, Eq, Structural)]
pub enum Destination {
    Device,
    Interface,
    Endpoint,
    Other,
}

impl Destination {
    /// The field's value placed at its position within `bmRequestType`.
    pub open spec fn spec_bits(self) -> u8 {
        match self {
            Destination::Device => 0x00,
            Destination::Interface => 0x01,
            Destination::Endpoint => 0x02,
            Destination::Other => 0x03,
        }
    }

    /// The recipient the low two bits carry; every byte decodes.
    pub open spec fn spec_from_bits(bits: u8) -> Option<Destination> {
        if bits & 0x03 == 0x00 {
            Some(Destination::Device)
        } else if bits & 0x03 == 0x01 {
            Some(Destination::Interface)
        } else if bits & 0x03 == 0x02 {
            Some(Destination::Endpoint)
        } else {
            Some(Destination::Other)
        }
    }

    pub fn to_bits(self) -> (r: u8)
        ensures
            r == self.spec_bits(),
    {
        match self {
            Destination::Device => 0x00,
            Destination::Interface => 0x01,
            Destination::Endpoint => 0x02,
            Destination::Other => 0x03,
        }
    }

    /// Total decode of the low two bits; every byte decodes.
    pub fn from_bits(bits: u8) -> (r: Option<Destination>)
        ensures
            r == Destination::spec_from_bits(bits),
            r matches Some(d) && d.spec_bits() == bits & 0x03,
    {
        proof {
            assert(bits & 0x03 <= 3) by (bit_vector);
        }
        let field = bits & 0x03;
        if field == 0 {
            Some(Destination::Device)
        } else if field == 1 {
            Some(Destination::Interface)
        } else if field == 2 {
            Some(Destination::Endpoint)
        } else {
            Some(Destination::Other)
        }
    }
}

/// The whole `bmRequestType` byte as one code.
#[derive(Debug, Copy, Clone, PartialEq, Eq, Structural)]
pub enum UsbRequestType {
    OutStandardDevice,
    OutStandardInterface,
    OutStandardEndpoint,
    OutStandardOther,
    OutClassDevice,
    OutClassInterface,
    OutClassEndpoint,
    OutClassOther,
    OutVendorDevice,
    OutVendorInterface,
    OutVendorEndpoint,
    OutVendorOther,
    InStandardDevice,
    InStandardInterface,
    InStandardEndpoint,
    InStandardOther,
    InClassDevice,
    InClassInterface,
    InClassEndpoint,
    InClassOther,
    InVendorDevice,
    InVendorInterface,
    InVendorEndpoint,
    InVendorOther,
}

impl UsbRequestType {
    /// The byte this code stands for.
    pub open spec fn spec_bits(self) -> u8 {
        match self {
            UsbRequestType::OutStandardDevice => 0x00,
            UsbRequestType::OutStandardInterface => 0x01,
            UsbRequestType::OutStandardEndpoint => 0x02,
            UsbRequestType::OutStandardOther => 0x03,
            UsbRequestType::OutClassDevice => 0x20,
            UsbRequestType::OutClassInterface => 0x21,
            UsbRequestType::OutClassEndpoint => 0x22,
            UsbRequestType::OutClassOther => 0x23,
            UsbRequestType::OutVendorDevice => 0x40,
            UsbRequestType::OutVendorInterface => 0x41,
            UsbRequestType::OutVendorEndpoint => 0x42,
            UsbRequestType::OutVendorOther => 0x43,
            UsbRequestType::InStandardDevice => 0x80,
            UsbRequestType::InStandardInterface => 0x81,
            UsbRequestType::InStandardEndpoint => 0x82,
            UsbRequestType::InStandardOther => 0x83,
            UsbRequestType::InClassDevice => 0xa0,
            UsbRequestType::InClassInterface => 0xa1,
            UsbRequestType::InClassEndpoint => 0xa2,
            UsbRequestType::InClassOther => 0xa3,
            UsbRequestType::InVendorDevice => 0xc0,
            UsbRequestType::InVendorInterface => 0xc1,
            UsbRequestType::InVendorEndpoint => 0xc2,
            UsbRequestType::InVendorOther => 0xc3,
        }
    }

    pub fn to_bits(self) -> (r: u8)
        ensures
            r == self.spec_bits(),
    {
        match self {
            UsbRequestType::OutStandardDevice => 0x00,
            UsbRequestType::OutStandardInterface => 0x01,
            UsbRequestType::OutStandardEndpoint => 0x02,
            UsbRequestType::OutStandardOther => 0x03,
            UsbRequestType::OutClassDevice => 0x20,
            UsbRequestType::OutClassInterface => 0x21,
            UsbRequestType::OutClassEndpoint => 0x22,
            UsbRequestType::OutClassOther => 0x23,
            UsbRequestType::OutVendorDevice => 0x40,
            UsbRequestType::OutVendorInterface => 0x41,
            UsbRequestType::OutVendorEndpoint => 0x42,
            UsbRequestType::OutVendorOther => 0x43,
            UsbRequestType::InStandardDevice => 0x80,
            UsbRequestType::InStandardInterface => 0x81,
            UsbRequestType::InStandardEndpoint => 0x82,
            UsbRequestType::InStandardOther => 0x83,
            UsbRequestType::InClassDevice => 0xa0,
            UsbRequestType::InClassInterface => 0xa1,
            UsbRequestType::InClassEndpoint => 0xa2,
            UsbRequestType::InClassOther => 0xa3,
            UsbRequestType::InVendorDevice => 0xc0,
            UsbRequestType::InVendorInterface => 0xc1,
            UsbRequestType::InVendorEndpoint => 0xc2,
            UsbRequestType::InVendorOther => 0xc3,
        }
    }

    /// Total decode: `None` for the reserved class pattern and for
    /// recipient values beyond the defined ones.
    pub fn from_bits(b: u8) -> (r: Option<UsbRequestType>)
        ensures
            r is Some <==> (b & 0x60 != 0x60 && b & 0x1f <= 0x03),
            r matches Some(t) ==> t.spec_bits() == b,
    {
        proof {
            assert((b & 0x60 != 0x60 && b & 0x1f <= 0x03) <==> (b == 0x00 || b == 0x01
                || b == 0x02 || b == 0x03 || b == 0x20 || b == 0x21 || b == 0x22 || b == 0x23
                || b == 0x40 || b == 0x41 || b == 0x42 || b == 0x43 || b == 0x80 || b == 0x81
                || b == 0x82 || b == 0x83 || b == 0xa0 || b == 0xa1 || b == 0xa2 || b == 0xa3
                || b == 0xc0 || b == 0xc1 || b == 0xc2 || b == 0xc3)) by (bit_vector);
        }
        match b {
            0x00 => Some(UsbRequestType::OutStandardDevice),
            0x01 => Some(UsbRequestType::OutStandardInterface),
            0x02 => Some(UsbRequestType::OutStandardEndpoint),
            0x03 => Some(UsbRequestType::OutStandardOther),
            0x20 => Some(UsbRequestType::OutClassDevice),
            0x21 => Some(UsbRequestType::OutClassInterface),
            0x22 => Some(UsbRequestType::OutClassEndpoint),
            0x23 => Some(UsbRequestType::OutClassOther),
            0x40 => Some(UsbRequestType::OutVendorDevice),
            0x41 => Some(UsbRequestType::OutVendorInterface),
            0x42 => Some(UsbRequestType::OutVendorEndpoint),
            0x43 => Some(UsbRequestType::OutVendorOther),
            0x80 => Some(UsbRequestType::InStandardDevice),
            0x81 => Some(UsbRequestType::InStandardInterface),
            0x82 => Some(UsbRequestType::InStandardEndpoint),
            0x83 => Some(UsbRequestType::InStandardOther),
            0xa0 => Some(UsbRequestType::InClassDevice),
            0xa1 => Some(UsbRequestType::InClassInterface),
            0xa2 => Some(UsbRequestType::InClassEndpoint),
            0xa3 => Some(UsbRequestType::InClassOther),
            0xc0 => Some(UsbRequestType::InVendorDevice),
            0xc1 => Some(UsbRequestType::InVendorInterface),
            0xc2 => Some(UsbRequestType::InVendorEndpoint),
            0xc3 => Some(UsbRequestType::InVendorOther),
            _ => None,
        }
    }
}

/// Descriptor-type codes carried in the high byte of GetDescriptor's
/// `wValue`.
#[derive(Debug, Copy, Clone, PartialEq, Eq, Structural)]
pub enum UsbDescriptorType {
    Device,
    Configuration,
    StringDesc,
    Interface,
    Endpoint,
    DeviceQualifier,
    OtherSpeedConfiguration,
    Debug,
    Bos,
    Hid,
    HidReport,
}

impl UsbDescriptorType {
    /// The code of this descriptor type on the wire.
    pub open spec fn spec_byte(self) -> u8 {
        match self {
            UsbDescriptorType::Device => 0x01,
            UsbDescriptorType::Configuration => 0x02,
            UsbDescriptorType::StringDesc => 0x03,
            UsbDescriptorType::Interface => 0x04,
            UsbDescriptorType::Endpoint => 0x05,
            UsbDescriptorType::DeviceQualifier => 0x06,
            UsbDescriptorType::OtherSpeedConfiguration => 0x07,
            UsbDescriptorType::Debug => 0x0a,
            UsbDescriptorType::Bos => 0x0f,
            UsbDescriptorType::Hid => 0x21,
            UsbDescriptorType::HidReport => 0x22,
        }
    }

    /// Whether `b` is a known descriptor-type code.
    pub open spec fn spec_is_code(b: u8) -> bool {
        1 <= b <= 7 || b == 0x0a || b == 0x0f || b == 0x21 || b == 0x22
    }

    pub fn to_byte(self) -> (r: u8)
        ensures
            r == self.spec_byte(),
    {
        match self {
            UsbDescriptorType::Device => 0x01,
            UsbDescriptorType::Configuration => 0x02,
            UsbDescriptorType::StringDesc => 0x03,
            UsbDescriptorType::Interface => 0x04,
            UsbDescriptorType::Endpoint => 0x05,
            UsbDescriptorType::DeviceQualifier => 0x06,
            UsbDescriptorType::OtherSpeedConfiguration => 0x07,
            UsbDescriptorType::Debug => 0x0a,
            UsbDescriptorType::Bos => 0x0f,
            UsbDescriptorType::Hid => 0x21,
            UsbDescriptorType::HidReport => 0x22,
        }
    }

    /// Total decode of a descriptor-type code.
    pub fn from_byte(b: u8) -> (r: Option<UsbDescriptorType>)
        ensures
            r is Some <==> UsbDescriptorType::spec_is_code(b),
            r matches Some(t) ==> t.spec_byte() == b,
    {
        match b {
            0x01 => Some(UsbDescriptorType::Device),
            0x02 => Some(UsbDescriptorType::Configuration),
            0x03 => Some(UsbDescriptorType::StringDesc),
            0x04 => Some(UsbDescriptorType::Interface),
            0x05 => Some(UsbDescriptorType::Endpoint),
            0x06 => Some(UsbDescriptorType::DeviceQualifier),
            0x07 => Some(UsbDescriptorType::OtherSpeedConfiguration),
            0x0a => Some(UsbDescriptorType::Debug),
            0x0f => Some(UsbDescriptorType::Bos),
            0x21 => Some(UsbDescriptorType::Hid),
            0x22 => Some(UsbDescriptorType::HidReport),
            _ => None,
        }
    }
}

/// Coarse device states along the bus lifecycle.
#[derive(Debug, Copy, Clone, PartialEq, Eq, Structural)]
pub enum UsbDeviceState {
    Disabled,
    Attached,
    Powered,
    Reset,
    Addressed,
    Configured,
    Suspended,
}

} // verus!
