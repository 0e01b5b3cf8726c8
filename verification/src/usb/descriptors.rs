//! Standard descriptor records, byte-exact.
//!
//! Each record has a specification-conformant default and field setters that
//! return a modified copy, so full descriptor sets can be declared once and
//! never mutated.  Serialization is the raw field-ordered byte layout with
//! little-endian multi-byte fields and no padding.

use vstd::prelude::*;

verus! {

/// Low byte of a little-endian 16-bit field.
pub open spec fn spec_lo(v: u16) -> u8 {
    (v & 0xff) as u8
}

/// High byte of a little-endian 16-bit field.
pub open spec fn spec_hi(v: u16) -> u8 {
    ((v >> 8) & 0xff) as u8
}

/// Low byte of `v`, as transmitted first on the wire.
pub fn lo_byte(v: u16) -> (r: u8)
    ensures
        r == spec_lo(v),
{
    proof {
        assert(v & 0xff < 256) by (bit_vector);
    }
    (v & 0xff) as u8
}

/// High byte of `v`, as transmitted second on the wire.
pub fn hi_byte(v: u16) -> (r: u8)
    ensures
        r == spec_hi(v),
{
    proof {
        assert((v >> 8) & 0xff < 256) by (bit_vector);
    }
    ((v >> 8) & 0xff) as u8
}

/// The Device descriptor: 18 bytes.
#[derive(Debug, Copy, Clone, PartialEq, Eq, Structural)]
pub struct Device {
    pub bLength: u8,
    pub bDescriptorType: u8,
    pub bcdUSB: u16,
    pub bDeviceClass: u8,
    pub bDeviceSubClass: u8,
    pub bDeviceProtocol: u8,
    pub bMaxPacketSize0: u8,
    pub idVendor: u16,
    pub idProduct: u16,
    pub bcdDevice: u16,
    pub iManufacturer: u8,
    pub iProduct: u8,
    pub iSerialNumber: u8,
    pub bNumConfigurations: u8,
}

impl Device {
    /// The conformant default: USB 2.0, class given per interface,
    /// 64-byte control packets, one configuration.
    pub open spec fn spec_new() -> Device {
        Device {
            bLength: 18,
            bDescriptorType: 0x01,
            bcdUSB: 0x0200,
            bDeviceClass: 0x00,
            bDeviceSubClass: 0x00,
            bDeviceProtocol: 0x00,
            bMaxPacketSize0: 0x40,
            idVendor: 0xffff,
            idProduct: 0xffff,
            bcdDevice: 0x0200,
            iManufacturer: 0x00,
            iProduct: 0x00,
            iSerialNumber: 0x00,
            bNumConfigurations: 0x01,
        }
    }

    /// The record's wire image: field order, little-endian words.
    pub open spec fn spec_bytes(self) -> Seq<u8> {
        seq![
            self.bLength,
            self.bDescriptorType,
            spec_lo(self.bcdUSB),
            spec_hi(self.bcdUSB),
            self.bDeviceClass,
            self.bDeviceSubClass,
            self.bDeviceProtocol,
            self.bMaxPacketSize0,
            spec_lo(self.idVendor),
            spec_hi(self.idVendor),
            spec_lo(self.idProduct),
            spec_hi(self.idProduct),
            spec_lo(self.bcdDevice),
            spec_hi(self.bcdDevice),
            self.iManufacturer,
            self.iProduct,
            self.iSerialNumber,
            self.bNumConfigurations,
        ]
    }

    pub fn new() -> (r: Device)
        ensures
            r == Device::spec_new(),
    {
        Device {
            bLength: 18,
            bDescriptorType: 0x01,
            bcdUSB: 0x0200,
            bDeviceClass: 0x00,
            bDeviceSubClass: 0x00,
            bDeviceProtocol: 0x00,
            bMaxPacketSize0: 0x40,
            idVendor: 0xffff,
            idProduct: 0xffff,
            bcdDevice: 0x0200,
            iManufacturer: 0x00,
            iProduct: 0x00,
            iSerialNumber: 0x00,
            bNumConfigurations: 0x01,
        }
    }

    pub fn bcdUSB(&self, bcdUSB: u16) -> (r: Device)
        ensures
            r == (Device { bcdUSB, ..*self }),
    {
        Device { bcdUSB, ..*self }
    }

    pub fn bDeviceClass(&self, bDeviceClass: u8) -> (r: Device)
        ensures
            r == (Device { bDeviceClass, ..*self }),
    {
        Device { bDeviceClass, ..*self }
    }

    pub fn bDeviceSubClass(&self, bDeviceSubClass: u8) -> (r: Device)
        ensures
            r == (Device { bDeviceSubClass, ..*self }),
    {
        Device { bDeviceSubClass, ..*self }
    }

    pub fn bDeviceProtocol(&self, bDeviceProtocol: u8) -> (r: Device)
        ensures
            r == (Device { bDeviceProtocol, ..*self }),
    {
        Device { bDeviceProtocol, ..*self }
    }

    pub fn bMaxPacketSize0(&self, bMaxPacketSize0: u8) -> (r: Device)
        ensures
            r == (Device { bMaxPacketSize0, ..*self }),
    {
        Device { bMaxPacketSize0, ..*self }
    }

    pub fn idVendor(&self, idVendor: u16) -> (r: Device)
        ensures
            r == (Device { idVendor, ..*self }),
    {
        Device { idVendor, ..*self }
    }

    pub fn idProduct(&self, idProduct: u16) -> (r: Device)
        ensures
            r == (Device { idProduct, ..*self }),
    {
        Device { idProduct, ..*self }
    }

    pub fn iManufacturer(&self, iManufacturer: u8) -> (r: Device)
        ensures
            r == (Device { iManufacturer, ..*self }),
    {
        Device { iManufacturer, ..*self }
    }

    pub fn iProduct(&self, iProduct: u8) -> (r: Device)
        ensures
            r == (Device { iProduct, ..*self }),
    {
        Device { iProduct, ..*self }
    }

    pub fn iSerialNumber(&self, iSerialNumber: u8) -> (r: Device)
        ensures
            r == (Device { iSerialNumber, ..*self }),
    {
        Device { iSerialNumber, ..*self }
    }

    pub fn bNumConfigurations(&self, bNumConfigurations: u8) -> (r: Device)
        ensures
            r == (Device { bNumConfigurations, ..*self }),
    {
        Device { bNumConfigurations, ..*self }
    }

    /// The 18-byte wire image.
    pub fn to_bytes(&self) -> (r: Vec<u8>)
        ensures
            r@ == self.spec_bytes(),
            r@.len() == 18,
    {
        let mut out: Vec<u8> = Vec::new();
        out.push(self.bLength);
        out.push(self.bDescriptorType);
        out.push(lo_byte(self.bcdUSB));
        out.push(hi_byte(self.bcdUSB));
        out.push(self.bDeviceClass);
        out.push(self.bDeviceSubClass);
        out.push(self.bDeviceProtocol);
        out.push(self.bMaxPacketSize0);
        out.push(lo_byte(self.idVendor));
        out.push(hi_byte(self.idVendor));
        out.push(lo_byte(self.idProduct));
        out.push(hi_byte(self.idProduct));
        out.push(lo_byte(self.bcdDevice));
        out.push(hi_byte(self.bcdDevice));
        out.push(self.iManufacturer);
        out.push(self.iProduct);
        out.push(self.iSerialNumber);
        out.push(self.bNumConfigurations);
        proof {
            assert(out@ =~= self.spec_bytes());
        }
        out
    }
}

impl Default for Device {
    fn default() -> (r: Device)
        ensures
            r == Device::spec_new(),
    {
        Device::new()
    }
}

/// The Device Qualifier descriptor: 10 bytes.
#[derive(Debug, Copy, Clone, PartialEq, Eq, Structural)]
pub struct DeviceQualifier {
    pub bLength: u8,
    pub bDescriptorType: u8,
    pub bcdUSB: u16,
    pub bDeviceClass: u8,
    pub bDeviceSubClass: u8,
    pub bDeviceProtocol: u8,
    pub bMaxPacketSize0: u8,
    pub bNumConfigurations: u8,
    pub bReserved: u8,
}

impl DeviceQualifier {
    /// The conformant default, mirroring [`Device::spec_new`].
    pub open spec fn spec_new() -> DeviceQualifier {
        DeviceQualifier {
            bLength: 10,
            bDescriptorType: 0x06,
            bcdUSB: 0x0200,
            bDeviceClass: 0x00,
            bDeviceSubClass: 0x00,
            bDeviceProtocol: 0x00,
            bMaxPacketSize0: 0x40,
            bNumConfigurations: 0x01,
            bReserved: 0x00,
        }
    }

    /// The record's wire image: field order, little-endian words.
    pub open spec fn spec_bytes(self) -> Seq<u8> {
        seq![
            self.bLength,
            self.bDescriptorType,
            spec_lo(self.bcdUSB),
            spec_hi(self.bcdUSB),
            self.bDeviceClass,
            self.bDeviceSubClass,
            self.bDeviceProtocol,
            self.bMaxPacketSize0,
            self.bNumConfigurations,
            self.bReserved,
        ]
    }

    pub fn new() -> (r: DeviceQualifier)
        ensures
            r == DeviceQualifier::spec_new(),
    {
        DeviceQualifier {
            bLength: 10,
            bDescriptorType: 0x06,
            bcdUSB: 0x0200,
            bDeviceClass: 0x00,
            bDeviceSubClass: 0x00,
            bDeviceProtocol: 0x00,
            bMaxPacketSize0: 0x40,
            bNumConfigurations: 0x01,
            bReserved: 0x00,
        }
    }

    pub fn bcdUSB(&self, bcdUSB: u16) -> (r: DeviceQualifier)
        ensures
            r == (DeviceQualifier { bcdUSB, ..*self }),
    {
        DeviceQualifier { bcdUSB, ..*self }
    }

    /// The 10-byte wire image.
    pub fn to_bytes(&self) -> (r: Vec<u8>)
        ensures
            r@ == self.spec_bytes(),
            r@.len() == 10,
    {
        let mut out: Vec<u8> = Vec::new();
        out.push(self.bLength);
        out.push(self.bDescriptorType);
        out.push(lo_byte(self.bcdUSB));
        out.push(hi_byte(self.bcdUSB));
        out.push(self.bDeviceClass);
        out.push(self.bDeviceSubClass);
        out.push(self.bDeviceProtocol);
        out.push(self.bMaxPacketSize0);
        out.push(self.bNumConfigurations);
        out.push(self.bReserved);
        proof {
            assert(out@ =~= self.spec_bytes());
        }
        out
    }
}

impl Default for DeviceQualifier {
    fn default() -> (r: DeviceQualifier)
        ensures
            r == DeviceQualifier::spec_new(),
    {
        DeviceQualifier::new()
    }
}

/// The Configuration descriptor: 9 bytes; also the layout of the
/// other-speed configuration.
#[derive(Debug, Copy, Clone, PartialEq, Eq, Structural)]
pub struct Configuration {
    pub bLength: u8,
    pub bDescriptorType: u8,
    pub wTotalLength: u16,
    pub bNumInterfaces: u8,
    pub bConfigurationValue: u8,
    pub iConfiguration: u8,
    pub bmAttributes: u8,
    pub bMaxPower: u8,
}

impl Configuration {
    /// The default: an empty configuration to be filled field by field.
    pub open spec fn spec_new() -> Configuration {
        Configuration {
            bLength: 9,
            bDescriptorType: 0x02,
            wTotalLength: 0x0000,
            bNumInterfaces: 0x00,
            bConfigurationValue: 0x00,
            iConfiguration: 0x00,
            bmAttributes: 0x00,
            bMaxPower: 0x00,
        }
    }

    /// The record's wire image: field order, little-endian words.
    pub open spec fn spec_bytes(self) -> Seq<u8> {
        seq![
            self.bLength,
            self.bDescriptorType,
            spec_lo(self.wTotalLength),
            spec_hi(self.wTotalLength),
            self.bNumInterfaces,
            self.bConfigurationValue,
            self.iConfiguration,
            self.bmAttributes,
            self.bMaxPower,
        ]
    }

    pub fn new() -> (r: Configuration)
        ensures
            r == Configuration::spec_new(),
    {
        Configuration {
            bLength: 9,
            bDescriptorType: 0x02,
            wTotalLength: 0x0000,
            bNumInterfaces: 0x00,
            bConfigurationValue: 0x00,
            iConfiguration: 0x00,
            bmAttributes: 0x00,
            bMaxPower: 0x00,
        }
    }

    pub fn wTotalLength(&self, wTotalLength: u16) -> (r: Configuration)
        ensures
            r == (Configuration { wTotalLength, ..*self }),
    {
        Configuration { wTotalLength, ..*self }
    }

    pub fn bNumInterfaces(&self, bNumInterfaces: u8) -> (r: Configuration)
        ensures
            r == (Configuration { bNumInterfaces, ..*self }),
    {
        Configuration { bNumInterfaces, ..*self }
    }

    pub fn bConfigurationValue(&self, bConfigurationValue: u8) -> (r: Configuration)
        ensures
            r == (Configuration { bConfigurationValue, ..*self }),
    {
        Configuration { bConfigurationValue, ..*self }
    }

    pub fn iConfiguration(&self, iConfiguration: u8) -> (r: Configuration)
        ensures
            r == (Configuration { iConfiguration, ..*self }),
    {
        Configuration { iConfiguration, ..*self }
    }

    pub fn bmAttributes(&self, bmAttributes: u8) -> (r: Configuration)
        ensures
            r == (Configuration { bmAttributes, ..*self }),
    {
        Configuration { bmAttributes, ..*self }
    }

    pub fn bMaxPower(&self, bMaxPower: u8) -> (r: Configuration)
        ensures
            r == (Configuration { bMaxPower, ..*self }),
    {
        Configuration { bMaxPower, ..*self }
    }

    /// The 9-byte wire image.
    pub fn to_bytes(&self) -> (r: Vec<u8>)
        ensures
            r@ == self.spec_bytes(),
            r@.len() == 9,
    {
        let mut out: Vec<u8> = Vec::new();
        out.push(self.bLength);
        out.push(self.bDescriptorType);
        out.push(lo_byte(self.wTotalLength));
        out.push(hi_byte(self.wTotalLength));
        out.push(self.bNumInterfaces);
        out.push(self.bConfigurationValue);
        out.push(self.iConfiguration);
        out.push(self.bmAttributes);
        out.push(self.bMaxPower);
        proof {
            assert(out@ =~= self.spec_bytes());
        }
        out
    }
}

impl Default for Configuration {
    fn default() -> (r: Configuration)
        ensures
            r == Configuration::spec_new(),
    {
        Configuration::new()
    }
}

/// The Interface descriptor: 9 bytes.
#[derive(Debug, Copy, Clone, PartialEq, Eq, Structural)]
pub struct Interface {
    pub bLength: u8,
    pub bDescriptorType: u8,
    pub bInterfaceNumber: u8,
    pub bAlternateSetting: u8,
    pub bNumEndpoints: u8,
    pub bInterfaceClass: u8,
    pub bInterfaceSubClass: u8,
    pub bInterfaceProtocol: u8,
    pub iInterface: u8,
}

impl Interface {
    /// The default: one endpoint, vendor-specific class.
    pub open spec fn spec_new() -> Interface {
        Interface {
            bLength: 9,
            bDescriptorType: 0x04,
            bInterfaceNumber: 0,
            bAlternateSetting: 0,
            bNumEndpoints: 1,
            bInterfaceClass: 0xff,
            bInterfaceSubClass: 0xff,
            bInterfaceProtocol: 0xff,
            iInterface: 0,
        }
    }

    /// The record's wire image: field order.
    pub open spec fn spec_bytes(self) -> Seq<u8> {
        seq![
            self.bLength,
            self.bDescriptorType,
            self.bInterfaceNumber,
            self.bAlternateSetting,
            self.bNumEndpoints,
            self.bInterfaceClass,
            self.bInterfaceSubClass,
            self.bInterfaceProtocol,
            self.iInterface,
        ]
    }

    pub fn new() -> (r: Interface)
        ensures
            r == Interface::spec_new(),
    {
        Interface {
            bLength: 9,
            bDescriptorType: 0x04,
            bInterfaceNumber: 0,
            bAlternateSetting: 0,
            bNumEndpoints: 1,
            bInterfaceClass: 0xff,
            bInterfaceSubClass: 0xff,
            bInterfaceProtocol: 0xff,
            iInterface: 0,
        }
    }

    pub fn bInterfaceNumber(&self, bInterfaceNumber: u8) -> (r: Interface)
        ensures
            r == (Interface { bInterfaceNumber, ..*self }),
    {
        Interface { bInterfaceNumber, ..*self }
    }

    pub fn bAlternateSetting(&self, bAlternateSetting: u8) -> (r: Interface)
        ensures
            r == (Interface { bAlternateSetting, ..*self }),
    {
        Interface { bAlternateSetting, ..*self }
    }

    pub fn bNumEndpoints(&self, bNumEndpoints: u8) -> (r: Interface)
        ensures
            r == (Interface { bNumEndpoints, ..*self }),
    {
        Interface { bNumEndpoints, ..*self }
    }

    pub fn iInterface(&self, iInterface: u8) -> (r: Interface)
        ensures
            r == (Interface { iInterface, ..*self }),
    {
        Interface { iInterface, ..*self }
    }

    /// The 9-byte wire image.
    pub fn to_bytes(&self) -> (r: Vec<u8>)
        ensures
            r@ == self.spec_bytes(),
            r@.len() == 9,
    {
        let mut out: Vec<u8> = Vec::new();
        out.push(self.bLength);
        out.push(self.bDescriptorType);
        out.push(self.bInterfaceNumber);
        out.push(self.bAlternateSetting);
        out.push(self.bNumEndpoints);
        out.push(self.bInterfaceClass);
        out.push(self.bInterfaceSubClass);
        out.push(self.bInterfaceProtocol);
        out.push(self.iInterface);
        proof {
            assert(out@ =~= self.spec_bytes());
        }
        out
    }
}

impl Default for Interface {
    fn default() -> (r: Interface)
        ensures
            r == Interface::spec_new(),
    {
        Interface::new()
    }
}

/// The Endpoint descriptor: 7 bytes.
#[derive(Debug, Copy, Clone, PartialEq, Eq, Structural)]
pub struct Endpoint {
    pub bLength: u8,
    pub bDescriptorType: u8,
    pub bEndpointAddress: u8,
    pub bmAttributes: u8,
    pub wMaxPacketSize: u16,
    pub bInterval: u8,
}

impl Endpoint {
    /// The default: bulk, endpoint 1 OUT, 64-byte packets.
    pub open spec fn spec_new() -> Endpoint {
        Endpoint {
            bLength: 7,
            bDescriptorType: 0x05,
            bEndpointAddress: 0x01,
            bmAttributes: 0x02,
            wMaxPacketSize: 64,
            bInterval: 10,
        }
    }

    /// The record's wire image: field order, little-endian words.
    pub open spec fn spec_bytes(self) -> Seq<u8> {
        seq![
            self.bLength,
            self.bDescriptorType,
            self.bEndpointAddress,
            self.bmAttributes,
            spec_lo(self.wMaxPacketSize),
            spec_hi(self.wMaxPacketSize),
            self.bInterval,
        ]
    }

    pub fn new() -> (r: Endpoint)
        ensures
            r == Endpoint::spec_new(),
    {
        Endpoint {
            bLength: 7,
            bDescriptorType: 0x05,
            bEndpointAddress: 0x01,
            bmAttributes: 0x02,
            wMaxPacketSize: 64,
            bInterval: 10,
        }
    }

    pub fn bEndpointAddress(&self, bEndpointAddress: u8) -> (r: Endpoint)
        ensures
            r == (Endpoint { bEndpointAddress, ..*self }),
    {
        Endpoint { bEndpointAddress, ..*self }
    }

    pub fn bmAttributes(&self, bmAttributes: u8) -> (r: Endpoint)
        ensures
            r == (Endpoint { bmAttributes, ..*self }),
    {
        Endpoint { bmAttributes, ..*self }
    }

    pub fn wMaxPacketSize(&self, wMaxPacketSize: u16) -> (r: Endpoint)
        ensures
            r == (Endpoint { wMaxPacketSize, ..*self }),
    {
        Endpoint { wMaxPacketSize, ..*self }
    }

    pub fn bInterval(&self, bInterval: u8) -> (r: Endpoint)
        ensures
            r == (Endpoint { bInterval, ..*self }),
    {
        Endpoint { bInterval, ..*self }
    }

    /// The 7-byte wire image.
    pub fn to_bytes(&self) -> (r: Vec<u8>)
        ensures
            r@ == self.spec_bytes(),
            r@.len() == 7,
    {
        let mut out: Vec<u8> = Vec::new();
        out.push(self.bLength);
        out.push(self.bDescriptorType);
        out.push(self.bEndpointAddress);
        out.push(self.bmAttributes);
        out.push(lo_byte(self.wMaxPacketSize));
        out.push(hi_byte(self.wMaxPacketSize));
        out.push(self.bInterval);
        proof {
            assert(out@ =~= self.spec_bytes());
        }
        out
    }
}

impl Default for Endpoint {
    fn default() -> (r: Endpoint)
        ensures
            r == Endpoint::spec_new(),
    {
        Endpoint::new()
    }
}

/// The zeroth string descriptor, listing the supported language codes.
#[derive(Debug, Clone, PartialEq)]
pub struct String0 {
    pub bLength: u8,
    pub bDescriptorType: u8,
    pub wLANGID: Vec<u16>,
}

/// A string descriptor.
#[derive(Debug, Clone, PartialEq)]
pub struct StringDesc {
    pub bLength: u8,
    pub bDescriptorType: u8,
    pub uString: Vec<u8>,
}

/// Wire images of a run of interface records, in order.
pub open spec fn spec_interfaces_bytes(ints: Seq<Interface>) -> Seq<u8>
    decreases ints.len(),
{
    if ints.len() == 0 {
        Seq::empty()
    } else {
        ints[0].spec_bytes() + spec_interfaces_bytes(ints.skip(1))
    }
}

/// Wire images of a run of endpoint records, in order.
pub open spec fn spec_endpoints_bytes(eps: Seq<Endpoint>) -> Seq<u8>
    decreases eps.len(),
{
    if eps.len() == 0 {
        Seq::empty()
    } else {
        eps[0].spec_bytes() + spec_endpoints_bytes(eps.skip(1))
    }
}

/// The wire image of a whole configuration set: the configuration record
/// followed by every declared interface and endpoint record.
pub open spec fn spec_config_set_bytes(
    cfg: Configuration,
    ints: Seq<Interface>,
    eps: Seq<Endpoint>,
) -> Seq<u8> {
    cfg.spec_bytes() + spec_interfaces_bytes(ints) + spec_endpoints_bytes(eps)
}

/// The byte count of a configuration set with the given numbers of
/// interface and endpoint records.
pub open spec fn spec_total_length(n_interfaces: nat, n_endpoints: nat) -> int {
    9 + 9 * (n_interfaces as int) + 7 * (n_endpoints as int)
}

proof fn lemma_interfaces_bytes_len(ints: Seq<Interface>)
    ensures
        spec_interfaces_bytes(ints).len() == 9 * ints.len(),
    decreases ints.len(),
{
    if ints.len() > 0 {
        lemma_interfaces_bytes_len(ints.skip(1));
    }
}

proof fn lemma_endpoints_bytes_len(eps: Seq<Endpoint>)
    ensures
        spec_endpoints_bytes(eps).len() == 7 * eps.len(),
    decreases eps.len(),
{
    if eps.len() > 0 {
        lemma_endpoints_bytes_len(eps.skip(1));
    }
}

/// For any configuration set of one or more interfaces with any number of
/// endpoints, a `wTotalLength` computed by [`spec_total_length`] equals the
/// exact byte count of the configuration record plus every declared
/// interface and endpoint record.
pub proof fn lemma_config_total_length(cfg: Configuration, ints: Seq<Interface>, eps: Seq<Endpoint>)
    requires
        ints.len() >= 1,
        cfg.wTotalLength == spec_total_length(ints.len(), eps.len()),
    ensures
        spec_config_set_bytes(cfg, ints, eps).len() == cfg.wTotalLength,
{
    lemma_interfaces_bytes_len(ints);
    lemma_endpoints_bytes_len(eps);
}

/// `wTotalLength` for a set of `n_interfaces` interface records and
/// `n_endpoints` endpoint records.
pub fn total_length(n_interfaces: usize, n_endpoints: usize) -> (r: u16)
    requires
        spec_total_length(n_interfaces as nat, n_endpoints as nat) <= u16::MAX,
    ensures
        r == spec_total_length(n_interfaces as nat, n_endpoints as nat),
{
    9 + 9 * (n_interfaces as u16) + 7 * (n_endpoints as u16)
}

/// The concatenated wire image of a configuration set, as sent in answer
/// to a GetDescriptor(Configuration) request.
pub fn config_set_bytes(cfg: &Configuration, ints: &Vec<Interface>, eps: &Vec<Endpoint>) -> (r: Vec<u8>)
    ensures
        r@ == spec_config_set_bytes(*cfg, ints@, eps@),
{
    let mut out: Vec<u8> = cfg.to_bytes();
    let mut i: usize = 0;
    while i < ints.len()
        invariant
            i <= ints@.len(),
            out@ == cfg.spec_bytes() + spec_interfaces_bytes(ints@.take(i as int)),
        decreases ints@.len() - i,
    {
        let mut piece = ints[i].to_bytes();
        out.append(&mut piece);
        i = i + 1;
        proof {
            lemma_interfaces_take_step(ints@, i as int);
        }
    }
    proof {
        assert(ints@.take(ints@.len() as int) =~= ints@);
    }
    let mut j: usize = 0;
    while j < eps.len()
        invariant
            j <= eps@.len(),
            out@ == cfg.spec_bytes() + spec_interfaces_bytes(ints@)
                + spec_endpoints_bytes(eps@.take(j as int)),
        decreases eps@.len() - j,
    {
        let mut piece = eps[j].to_bytes();
        out.append(&mut piece);
        j = j + 1;
        proof {
            lemma_endpoints_take_step(eps@, j as int);
        }
    }
    proof {
        assert(eps@.take(eps@.len() as int) =~= eps@);
    }
    out
}

proof fn lemma_interfaces_bytes_empty(ints: Seq<Interface>)
    requires
        ints.len() == 0,
    ensures
        spec_interfaces_bytes(ints) == Seq::<u8>::empty(),
{
}

proof fn lemma_endpoints_bytes_empty(eps: Seq<Endpoint>)
    requires
        eps.len() == 0,
    ensures
        spec_endpoints_bytes(eps) == Seq::<u8>::empty(),
{
}

proof fn lemma_interfaces_take_step(ints: Seq<Interface>, i: int)
    requires
        1 <= i <= ints.len(),
    ensures
        spec_interfaces_bytes(ints.take(i)) == spec_interfaces_bytes(ints.take(i - 1))
            + ints[i - 1].spec_bytes(),
    decreases i,
{
    if i == 1 {
        lemma_interfaces_bytes_empty(ints.take(1).skip(1));
        lemma_interfaces_bytes_empty(ints.take(0));
        assert(spec_interfaces_bytes(ints.take(1)) =~= ints[0].spec_bytes());
        assert(spec_interfaces_bytes(ints.take(0)) + ints[0].spec_bytes()
            =~= ints[0].spec_bytes());
    } else {
        assert(ints.take(i).skip(1) =~= ints.skip(1).take(i - 1));
        assert(ints.take(i - 1).skip(1) =~= ints.skip(1).take(i - 2));
        lemma_interfaces_take_step(ints.skip(1), i - 1);
        assert(ints.skip(1)[i - 2] == ints[i - 1]);
        assert(spec_interfaces_bytes(ints.take(i))
            =~= ints[0].spec_bytes() + spec_interfaces_bytes(ints.skip(1).take(i - 1)));
        assert(spec_interfaces_bytes(ints.take(i - 1))
            =~= ints[0].spec_bytes() + spec_interfaces_bytes(ints.skip(1).take(i - 2)));
    }
}

proof fn lemma_endpoints_take_step(eps: Seq<Endpoint>, i: int)
    requires
        1 <= i <= eps.len(),
    ensures
        spec_endpoints_bytes(eps.take(i)) == spec_endpoints_bytes(eps.take(i - 1))
            + eps[i - 1].spec_bytes(),
    decreases i,
{
    if i == 1 {
        lemma_endpoints_bytes_empty(eps.take(1).skip(1));
        lemma_endpoints_bytes_empty(eps.take(0));
        assert(spec_endpoints_bytes(eps.take(1)) =~= eps[0].spec_bytes());
        assert(spec_endpoints_bytes(eps.take(0)) + eps[0].spec_bytes()
            =~= eps[0].spec_bytes());
    } else {
        assert(eps.take(i).skip(1) =~= eps.skip(1).take(i - 1));
        assert(eps.take(i - 1).skip(1) =~= eps.skip(1).take(i - 2));
        lemma_endpoints_take_step(eps.skip(1), i - 1);
        assert(eps.skip(1)[i - 2] == eps[i - 1]);
        assert(spec_endpoints_bytes(eps.take(i))
            =~= eps[0].spec_bytes() + spec_endpoints_bytes(eps.skip(1).take(i - 1)));
        assert(spec_endpoints_bytes(eps.take(i - 1))
            =~= eps[0].spec_bytes() + spec_endpoints_bytes(eps.skip(1).take(i - 2)));
    }
}

} // verus!
