//! The payload shapes that recognized tags carry, their packed wire
//! encodings, and safe typed accessors that consult the tag-to-shape table
//! before reinterpreting payload bytes.
//!
//! One authoritative table associates a `(major type, sub-type)` pair with
//! its payload shape; an accessor asked for a shape that does not match the
//! node's tag fails with `WrongShapeForTag` instead of reinterpreting.

use vstd::prelude::*;

use crate::codec::le16;
use crate::codec::le16_read;
use crate::codec::le32;
use crate::codec::le32_read;
use crate::codec::lemma_le32_roundtrip;
use crate::codec::total_at;
use crate::error::DevicePathError;
use crate::navigate::header_ok_at;
use crate::tags::HardwareType;
use crate::tags::IPProtocol;
use crate::tags::StaticIPAddr;

verus! {

broadcast use vstd::array::group_array_axioms;

/// A typed node payload with a packed wire encoding.
pub trait Payload {
    /// The payload's packed wire encoding.
    spec fn bytes(&self) -> Seq<u8>;

    /// The encoded size in bytes.
    fn len(&self) -> (r: usize)
        ensures
            r == self.bytes().len(),
    ;

    /// The packed wire encoding.
    fn encode(&self) -> (r: Vec<u8>)
        ensures
            r@ == self.bytes(),
    ;
}

/// The empty payload of an `End` node.
impl Payload for () {
    open spec fn bytes(&self) -> Seq<u8> {
        Seq::empty()
    }

    fn len(&self) -> usize {
        0
    }

    fn encode(&self) -> (r: Vec<u8>) {
        let v: Vec<u8> = Vec::new();
        proof {
            assert(v@ =~= self.bytes());
        }
        v
    }
}

/// Payload of a `Hardware` / `PCI` node: the device's function and device
/// numbers on its PCI bus.
#[derive(Debug, Clone, Copy, PartialEq, Eq, Structural)]
pub struct PCIDevicePath {
    /// PCI function number.
    pub function: u8,
    /// PCI device number.
    pub device: u8,
}

/// Wire encoding of a PCI payload: function, then device, one byte each.
pub open spec fn pci_bytes(p: PCIDevicePath) -> Seq<u8> {
    seq![p.function, p.device]
}

/// The PCI payload stored in an encoded PCI payload region.
pub open spec fn pci_of(pl: Seq<u8>) -> PCIDevicePath {
    PCIDevicePath { function: pl[0], device: pl[1] }
}

impl Payload for PCIDevicePath {
    open spec fn bytes(&self) -> Seq<u8> {
        pci_bytes(*self)
    }

    fn len(&self) -> usize {
        2
    }

    fn encode(&self) -> (r: Vec<u8>) {
        let mut v: Vec<u8> = Vec::new();
        v.push(self.function);
        v.push(self.device);
        proof {
            assert(v@ =~= self.bytes());
        }
        v
    }
}

/// Decoding an encoded PCI payload loses nothing: it gives back exactly the
/// fields it was made from.
pub proof fn lemma_pci_roundtrip(p: PCIDevicePath)
    ensures
        pci_of(pci_bytes(p)) == p,
{
}

/// Payload of an `ACPI` / `ACPI` node: the device's PnP hardware ID and its
/// unique persistent ID.
#[derive(Debug, Clone, Copy, PartialEq, Eq, Structural)]
pub struct ACPIDevicePath {
    /// PnP hardware ID, a packed 32-bit EISA-type ID: three 5-bit letters
    /// and a 16-bit number.
    pub hid: u32,
    /// Unique ID distinguishing devices that share a hardware ID.
    pub uid: u32,
}

/// Wire encoding of an ACPI payload: `hid`, then `uid`, four little-endian
/// bytes each.
pub open spec fn acpi_bytes(p: ACPIDevicePath) -> Seq<u8> {
    le32(p.hid as int) + le32(p.uid as int)
}

/// The ACPI payload stored in an encoded ACPI payload region.
pub open spec fn acpi_of(pl: Seq<u8>) -> ACPIDevicePath {
    ACPIDevicePath {
        hid: le32_read(pl[0], pl[1], pl[2], pl[3]) as u32,
        uid: le32_read(pl[4], pl[5], pl[6], pl[7]) as u32,
    }
}

impl Payload for ACPIDevicePath {
    open spec fn bytes(&self) -> Seq<u8> {
        acpi_bytes(*self)
    }

    fn len(&self) -> usize {
        8
    }

    fn encode(&self) -> (r: Vec<u8>) {
        let mut v: Vec<u8> = Vec::new();
        v.push((self.hid % 256) as u8);
        v.push(((self.hid / 256) % 256) as u8);
        v.push(((self.hid / 65536) % 256) as u8);
        v.push(((self.hid / 16777216) % 256) as u8);
        v.push((self.uid % 256) as u8);
        v.push(((self.uid / 256) % 256) as u8);
        v.push(((self.uid / 65536) % 256) as u8);
        v.push(((self.uid / 16777216) % 256) as u8);
        proof {
            assert(v@ =~= self.bytes());
        }
        v
    }
}

/// Decoding an encoded ACPI payload loses nothing: it gives back exactly
/// the fields it was made from.
pub proof fn lemma_acpi_roundtrip(p: ACPIDevicePath)
    ensures
        acpi_of(acpi_bytes(p)) == p,
{
    lemma_le32_roundtrip(p.hid as int);
    lemma_le32_roundtrip(p.uid as int);
    assert(acpi_bytes(p)[4] == le32(p.uid as int)[0]);
    assert(acpi_bytes(p)[5] == le32(p.uid as int)[1]);
    assert(acpi_bytes(p)[6] == le32(p.uid as int)[2]);
    assert(acpi_bytes(p)[7] == le32(p.uid as int)[3]);
}

/// Payload of a `Messaging` / `MAC` node: a hardware address, padded to 32
/// bytes, and the interface hardware type.
#[derive(Debug, Clone, Copy)]
pub struct MACDevicePath {
    /// The hardware address, padded with zeroes to the fixed buffer size.
    pub address: [u8; 32],
    /// The interface hardware type (RFC 1700).
    pub iftype: HardwareType,
}

/// Wire encoding of a MAC payload: the 32 address bytes, then the hardware
/// type's code.
pub open spec fn mac_bytes(p: MACDevicePath) -> Seq<u8> {
    p.address@ + seq![p.iftype.as_byte()]
}

/// The address bytes stored in an encoded MAC payload region.
pub open spec fn mac_addr_of(pl: Seq<u8>) -> Seq<u8> {
    pl.subrange(0, 32)
}

/// The hardware-type code stored in an encoded MAC payload region.
pub open spec fn mac_iftype_of(pl: Seq<u8>) -> u8 {
    pl[32]
}

impl Payload for MACDevicePath {
    open spec fn bytes(&self) -> Seq<u8> {
        mac_bytes(*self)
    }

    fn len(&self) -> usize {
        33
    }

    fn encode(&self) -> (r: Vec<u8>) {
        let mut v: Vec<u8> = Vec::new();
        let mut i: usize = 0;
        while i < 32
            invariant
                i <= 32,
                v@ == self.address@.subrange(0, i as int),
            decreases 32 - i,
        {
            v.push(self.address[i]);
            proof {
                assert(self.address@.subrange(0, i + 1) == self.address@.subrange(0, i as int).push(
                    self.address@[i as int],
                ));
            }
            i = i + 1;
        }
        v.push(self.iftype.to_u8());
        proof {
            assert(self.address@.subrange(0, 32) == self.address@);
            assert(v@ =~= mac_bytes(*self));
        }
        v
    }
}

/// Decoding an encoded MAC payload loses nothing: it gives back exactly
/// the address bytes and the hardware-type code it was made from.
pub proof fn lemma_mac_roundtrip(p: MACDevicePath)
    ensures
        mac_addr_of(mac_bytes(p)) == p.address@,
        mac_iftype_of(mac_bytes(p)) == p.iftype.as_byte(),
        HardwareType::from_byte(mac_iftype_of(mac_bytes(p))) == Some(p.iftype),
{
    assert(mac_addr_of(mac_bytes(p)) =~= p.address@);
    crate::tags::lemma_hardware_type_code_roundtrip(p.iftype);
}

/// Payload of a `Messaging` / `IPv4` node: the two endpoints, ports,
/// protocol, address origin, gateway and subnet mask of an IPv4 session.
#[derive(Debug, Clone, Copy)]
pub struct IPv4DevicePath {
    /// The local endpoint's address.
    pub local_ip: [u8; 4],
    /// The remote endpoint's address.
    pub remote_ip: [u8; 4],
    /// The local endpoint's port.
    pub local_port: u16,
    /// The remote endpoint's port.
    pub remote_port: u16,
    /// The session's IP protocol.
    pub protocol: IPProtocol,
    /// Whether the local address was assigned statically or by DHCP.
    pub static_ip: StaticIPAddr,
    /// The gateway on the way to the remote endpoint.
    pub gateway_ip: [u8; 4],
    /// The local network's subnet mask.
    pub subnet_mask: [u8; 4],
}

/// Wire encoding of an IPv4 payload, 22 bytes: both addresses, both ports
/// (little-endian), the protocol and origin codes, gateway and subnet mask.
pub open spec fn ipv4_bytes(p: IPv4DevicePath) -> Seq<u8> {
    p.local_ip@ + p.remote_ip@ + le16(p.local_port as int) + le16(p.remote_port as int) + seq![
        p.protocol.as_byte(),
        p.static_ip.as_byte(),
    ] + p.gateway_ip@ + p.subnet_mask@
}

/// The fields stored in an encoded IPv4 payload region, read back as plain
/// values.
pub struct Ipv4Fields {
    /// The local endpoint's address bytes.
    pub local_ip: Seq<u8>,
    /// The remote endpoint's address bytes.
    pub remote_ip: Seq<u8>,
    /// The local endpoint's port.
    pub local_port: int,
    /// The remote endpoint's port.
    pub remote_port: int,
    /// The protocol code.
    pub protocol: u8,
    /// The address-origin code.
    pub static_ip: u8,
    /// The gateway's address bytes.
    pub gateway_ip: Seq<u8>,
    /// The subnet mask's bytes.
    pub subnet_mask: Seq<u8>,
}

/// Reads every field of an encoded IPv4 payload region back.
pub open spec fn ipv4_fields_of(pl: Seq<u8>) -> Ipv4Fields {
    Ipv4Fields {
        local_ip: pl.subrange(0, 4),
        remote_ip: pl.subrange(4, 8),
        local_port: le16_read(pl[8], pl[9]),
        remote_port: le16_read(pl[10], pl[11]),
        protocol: pl[12],
        static_ip: pl[13],
        gateway_ip: pl.subrange(14, 18),
        subnet_mask: pl.subrange(18, 22),
    }
}

impl Payload for IPv4DevicePath {
    open spec fn bytes(&self) -> Seq<u8> {
        ipv4_bytes(*self)
    }

    fn len(&self) -> usize {
        22
    }

    fn encode(&self) -> (r: Vec<u8>) {
        let mut v: Vec<u8> = Vec::new();
        push_quad(&mut v, &self.local_ip);
        push_quad(&mut v, &self.remote_ip);
        v.push((self.local_port % 256) as u8);
        v.push((self.local_port / 256) as u8);
        v.push((self.remote_port % 256) as u8);
        v.push((self.remote_port / 256) as u8);
        v.push(self.protocol.to_u8());
        v.push(self.static_ip.to_u8());
        push_quad(&mut v, &self.gateway_ip);
        push_quad(&mut v, &self.subnet_mask);
        proof {
            assert((self.local_port / 256) as u8 == ((self.local_port as int / 256) % 256) as u8);
            assert((self.remote_port / 256) as u8 == ((self.remote_port as int / 256) % 256) as u8);
            assert(v@ =~= ipv4_bytes(*self));
        }
        v
    }
}

/// Appends the four bytes of an address to `out`.
fn push_quad(out: &mut Vec<u8>, quad: &[u8; 4])
    ensures
        final(out)@ == old(out)@ + quad@,
{
    let ghost base = out@;
    let mut i: usize = 0;
    while i < 4
        invariant
            i <= 4,
            out@ == base + quad@.subrange(0, i as int),
        decreases 4 - i,
    {
        out.push(quad[i]);
        proof {
            assert(quad@.subrange(0, i + 1) == quad@.subrange(0, i as int).push(quad@[i as int]));
        }
        i = i + 1;
    }
    proof {
        assert(quad@.subrange(0, 4) == quad@);
    }
}

/// Decoding an encoded IPv4 payload loses nothing: it gives back exactly
/// the fields it was made from, and the protocol and origin codes name the
/// very variants that were encoded.
pub proof fn lemma_ipv4_roundtrip(p: IPv4DevicePath)
    ensures
        ({
            let f = ipv4_fields_of(ipv4_bytes(p));
            &&& f.local_ip == p.local_ip@
            &&& f.remote_ip == p.remote_ip@
            &&& f.local_port == p.local_port
            &&& f.remote_port == p.remote_port
            &&& f.protocol == p.protocol.as_byte()
            &&& f.static_ip == p.static_ip.as_byte()
            &&& f.gateway_ip == p.gateway_ip@
            &&& f.subnet_mask == p.subnet_mask@
            &&& IPProtocol::from_byte(f.protocol) == Some(p.protocol)
            &&& StaticIPAddr::from_byte(f.static_ip) == Some(p.static_ip)
        }),
{
    let s = ipv4_bytes(p);
    let f = ipv4_fields_of(s);
    assert(f.local_ip =~= p.local_ip@);
    assert(f.remote_ip =~= p.remote_ip@);
    assert(f.gateway_ip =~= p.gateway_ip@);
    assert(f.subnet_mask =~= p.subnet_mask@);
    assert(s[8] == (p.local_port as int % 256) as u8);
    assert(s[9] == ((p.local_port as int / 256) % 256) as u8);
    assert(s[10] == (p.remote_port as int % 256) as u8);
    assert(s[11] == ((p.remote_port as int / 256) % 256) as u8);
    crate::codec::lemma_le16_roundtrip(p.local_port as int);
    crate::codec::lemma_le16_roundtrip(p.remote_port as int);
    crate::tags::lemma_ip_protocol_code_roundtrip(p.protocol);
    crate::tags::lemma_static_ip_addr_code_roundtrip(p.static_ip);
}

/// Payload of a `Messaging` / `URI` node: a uniform resource identifier,
/// kept as its raw bytes; the node's total length alone bounds it.
#[derive(Debug, Clone, PartialEq, Eq)]
pub struct URIDevicePath {
    /// The URI's bytes.
    pub uri: Vec<u8>,
}

/// Wire encoding of a URI payload: the URI's bytes verbatim.
pub open spec fn uri_bytes(p: &URIDevicePath) -> Seq<u8> {
    p.uri@
}

impl Payload for URIDevicePath {
    open spec fn bytes(&self) -> Seq<u8> {
        uri_bytes(self)
    }

    fn len(&self) -> usize {
        self.uri.len()
    }

    fn encode(&self) -> (r: Vec<u8>) {
        let mut v: Vec<u8> = Vec::new();
        let mut i: usize = 0;
        while i < self.uri.len()
            invariant
                i <= self.uri@.len(),
                v@ == self.uri@.subrange(0, i as int),
            decreases self.uri@.len() - i,
        {
            v.push(self.uri[i]);
            proof {
                assert(self.uri@.subrange(0, i + 1) == self.uri@.subrange(0, i as int).push(
                    self.uri@[i as int],
                ));
            }
            i = i + 1;
        }
        proof {
            assert(self.uri@.subrange(0, self.uri@.len() as int) == self.uri@);
        }
        v
    }
}

/// A payload shape a recognized tag can carry.
#[derive(Debug, Clone, Copy, PartialEq, Eq, Structural)]
pub enum PayloadShape {
    /// A PCI location, 2 bytes.
    Pci,
    /// An ACPI ID pair, 8 bytes.
    Acpi,
    /// A hardware address and type, 33 bytes.
    Mac,
    /// An IPv4 session, 22 bytes.
    Ipv4,
    /// A URI, of any length.
    Uri,
}

/// The authoritative tag-to-shape table: which payload shape a
/// `(major type, sub-type)` pair carries.  Both the diagnostic decoder and
/// the typed accessors consult it; every other pair is opaque bytes.
pub open spec fn shape_of_tag(major: u8, sub: u8) -> Option<PayloadShape> {
    if major == 0x01 && sub == 0x01 {
        Some(PayloadShape::Pci)
    } else if major == 0x02 && sub == 0x01 {
        Some(PayloadShape::Acpi)
    } else if major == 0x03 && sub == 0x0b {
        Some(PayloadShape::Mac)
    } else if major == 0x03 && sub == 0x0c {
        Some(PayloadShape::Ipv4)
    } else if major == 0x03 && sub == 0x18 {
        Some(PayloadShape::Uri)
    } else {
        None
    }
}

/// Looks a tag up in the tag-to-shape table.
pub fn shape_of(major: u8, sub: u8) -> (r: Option<PayloadShape>)
    ensures
        r == shape_of_tag(major, sub),
{
    if major == 0x01 && sub == 0x01 {
        Some(PayloadShape::Pci)
    } else if major == 0x02 && sub == 0x01 {
        Some(PayloadShape::Acpi)
    } else if major == 0x03 && sub == 0x0b {
        Some(PayloadShape::Mac)
    } else if major == 0x03 && sub == 0x0c {
        Some(PayloadShape::Ipv4)
    } else if major == 0x03 && sub == 0x18 {
        Some(PayloadShape::Uri)
    } else {
        None
    }
}

/// The node total length a fixed-size shape requires; `None` for the one
/// variable-length shape.
pub open spec fn shape_total_len(sh: PayloadShape) -> Option<int> {
    match sh {
        PayloadShape::Pci => Some(6),
        PayloadShape::Acpi => Some(12),
        PayloadShape::Mac => Some(37),
        PayloadShape::Ipv4 => Some(26),
        PayloadShape::Uri => None,
    }
}

/// The node at `off` is readable and its tag carries shape `sh` with a
/// matching length, so a typed view of that shape may reinterpret its
/// payload.
pub open spec fn node_has_shape(s: Seq<u8>, off: int, sh: PayloadShape) -> bool {
    &&& header_ok_at(s, off)
    &&& shape_of_tag(s[off], s[off + 1]) == Some(sh)
    &&& match shape_total_len(sh) {
        Some(n) => total_at(s, off) == n,
        None => true,
    }
}

/// The four address bytes starting at `at`.
fn read_quad(buf: &Vec<u8>, at: usize) -> (r: [u8; 4])
    requires
        at + 4 <= buf@.len(),
    ensures
        r@ == buf@.subrange(at as int, at + 4),
{
    let n = buf.len();
    proof {
        assert(at + 3 < n);
    }
    let r = [buf[at], buf[at + 1], buf[at + 2], buf[at + 3]];
    proof {
        assert(r@ =~= buf@.subrange(at as int, at + 4));
    }
    r
}

/// Reads the node at `off` as a PCI payload after checking, against the
/// tag-to-shape table, that its tag carries that shape.  Fails like
/// `read_header` on an unreadable node, and with `WrongShapeForTag` when
/// the tag or the length does not match the shape.
pub fn payload_as_pci(buf: &Vec<u8>, off: usize) -> (r: Result<PCIDevicePath, DevicePathError>)
    ensures
        off + 4 > buf@.len() ==> r == Err::<PCIDevicePath, _>(DevicePathError::TruncatedHeader),
        off + 4 <= buf@.len() && total_at(buf@, off as int) < 4 ==> r == Err::<PCIDevicePath, _>(
            DevicePathError::InvalidLength,
        ),
        off + 4 <= buf@.len() && total_at(buf@, off as int) >= 4 && off + total_at(buf@, off as int)
            > buf@.len() ==> r == Err::<PCIDevicePath, _>(DevicePathError::TruncatedHeader),
        header_ok_at(buf@, off as int) && !node_has_shape(buf@, off as int, PayloadShape::Pci) ==> r
            == Err::<PCIDevicePath, _>(DevicePathError::WrongShapeForTag),
        node_has_shape(buf@, off as int, PayloadShape::Pci) ==> r == Ok::<_, DevicePathError>(
            pci_of(buf@.subrange(off + 4, off + 6)),
        ),
{
    let h = match crate::codec::read_header(buf, off) {
        Ok(h) => h,
        Err(e) => {
            return Err(e);
        },
    };
    if h.length as usize > buf.len() - off {
        return Err(DevicePathError::TruncatedHeader);
    }
    match shape_of(h.device_type, h.sub_type) {
        Some(PayloadShape::Pci) => (),
        _ => {
            return Err(DevicePathError::WrongShapeForTag);
        },
    }
    if h.length != 6 {
        return Err(DevicePathError::WrongShapeForTag);
    }
    Ok(PCIDevicePath { function: buf[off + 4], device: buf[off + 5] })
}

/// Reads the node at `off` as an ACPI payload after checking, against the
/// tag-to-shape table, that its tag carries that shape.  Fails like
/// `read_header` on an unreadable node, and with `WrongShapeForTag` when
/// the tag or the length does not match the shape.
pub fn payload_as_acpi(buf: &Vec<u8>, off: usize) -> (r: Result<ACPIDevicePath, DevicePathError>)
    ensures
        off + 4 > buf@.len() ==> r == Err::<ACPIDevicePath, _>(DevicePathError::TruncatedHeader),
        off + 4 <= buf@.len() && total_at(buf@, off as int) < 4 ==> r == Err::<ACPIDevicePath, _>(
            DevicePathError::InvalidLength,
        ),
        off + 4 <= buf@.len() && total_at(buf@, off as int) >= 4 && off + total_at(buf@, off as int)
            > buf@.len() ==> r == Err::<ACPIDevicePath, _>(DevicePathError::TruncatedHeader),
        header_ok_at(buf@, off as int) && !node_has_shape(buf@, off as int, PayloadShape::Acpi)
            ==> r == Err::<ACPIDevicePath, _>(DevicePathError::WrongShapeForTag),
        node_has_shape(buf@, off as int, PayloadShape::Acpi) ==> r == Ok::<_, DevicePathError>(
            acpi_of(buf@.subrange(off + 4, off + 12)),
        ),
{
    let h = match crate::codec::read_header(buf, off) {
        Ok(h) => h,
        Err(e) => {
            return Err(e);
        },
    };
    if h.length as usize > buf.len() - off {
        return Err(DevicePathError::TruncatedHeader);
    }
    match shape_of(h.device_type, h.sub_type) {
        Some(PayloadShape::Acpi) => (),
        _ => {
            return Err(DevicePathError::WrongShapeForTag);
        },
    }
    if h.length != 12 {
        return Err(DevicePathError::WrongShapeForTag);
    }
    let hid: u32 = buf[off + 4] as u32 + 256 * (buf[off + 5] as u32) + 65536 * (buf[off
        + 6] as u32) + 16777216 * (buf[off + 7] as u32);
    let uid: u32 = buf[off + 8] as u32 + 256 * (buf[off + 9] as u32) + 65536 * (buf[off
        + 10] as u32) + 16777216 * (buf[off + 11] as u32);
    Ok(ACPIDevicePath { hid, uid })
}

/// Reads the node at `off` as a MAC payload after checking, against the
/// tag-to-shape table, that its tag carries that shape.  Fails like
/// `read_header` on an unreadable node, and with `WrongShapeForTag` when
/// the tag or the length does not match the shape or the hardware-type
/// code is not a known one.
pub fn payload_as_mac(buf: &Vec<u8>, off: usize) -> (r: Result<MACDevicePath, DevicePathError>)
    ensures
        off + 4 > buf@.len() ==> r == Err::<MACDevicePath, _>(DevicePathError::TruncatedHeader),
        off + 4 <= buf@.len() && total_at(buf@, off as int) < 4 ==> r == Err::<MACDevicePath, _>(
            DevicePathError::InvalidLength,
        ),
        off + 4 <= buf@.len() && total_at(buf@, off as int) >= 4 && off + total_at(buf@, off as int)
            > buf@.len() ==> r == Err::<MACDevicePath, _>(DevicePathError::TruncatedHeader),
        header_ok_at(buf@, off as int) && !node_has_shape(buf@, off as int, PayloadShape::Mac) ==> r
            == Err::<MACDevicePath, _>(DevicePathError::WrongShapeForTag),
        node_has_shape(buf@, off as int, PayloadShape::Mac) && HardwareType::from_byte(
            buf@[off + 36],
        ) is None ==> r == Err::<MACDevicePath, _>(DevicePathError::WrongShapeForTag),
        node_has_shape(buf@, off as int, PayloadShape::Mac) && HardwareType::from_byte(
            buf@[off + 36],
        ) is Some ==> (r matches Ok(m) && m.address@ == buf@.subrange(off + 4, off + 36) && Some(
            m.iftype,
        ) == HardwareType::from_byte(buf@[off + 36])),
{
    let h = match crate::codec::read_header(buf, off) {
        Ok(h) => h,
        Err(e) => {
            return Err(e);
        },
    };
    if h.length as usize > buf.len() - off {
        return Err(DevicePathError::TruncatedHeader);
    }
    match shape_of(h.device_type, h.sub_type) {
        Some(PayloadShape::Mac) => (),
        _ => {
            return Err(DevicePathError::WrongShapeForTag);
        },
    }
    if h.length != 37 {
        return Err(DevicePathError::WrongShapeForTag);
    }
    let iftype = match HardwareType::from_u8(buf[off + 36]) {
        Some(t) => t,
        None => {
            return Err(DevicePathError::WrongShapeForTag);
        },
    };
    let mut address = [0u8; 32];
    let mut i: usize = 0;
    while i < 32
        invariant
            i <= 32,
            off + 37 <= buf@.len(),
            buf@.len() <= usize::MAX,
            address@.len() == 32,
            forall|j: int| 0 <= j < i ==> address@[j] == buf@[off + 4 + j],
        decreases 32 - i,
    {
        address[i] = buf[off + 4 + i];
        i = i + 1;
    }
    proof {
        assert(address@ =~= buf@.subrange(off + 4, off + 36));
    }
    Ok(MACDevicePath { address, iftype })
}

/// Reads the node at `off` as an IPv4 payload after checking, against the
/// tag-to-shape table, that its tag carries that shape.  Fails like
/// `read_header` on an unreadable node, and with `WrongShapeForTag` when
/// the tag or the length does not match the shape or the protocol or
/// address-origin code is not a known one.
pub fn payload_as_ipv4(buf: &Vec<u8>, off: usize) -> (r: Result<IPv4DevicePath, DevicePathError>)
    ensures
        off + 4 > buf@.len() ==> r == Err::<IPv4DevicePath, _>(DevicePathError::TruncatedHeader),
        off + 4 <= buf@.len() && total_at(buf@, off as int) < 4 ==> r == Err::<IPv4DevicePath, _>(
            DevicePathError::InvalidLength,
        ),
        off + 4 <= buf@.len() && total_at(buf@, off as int) >= 4 && off + total_at(buf@, off as int)
            > buf@.len() ==> r == Err::<IPv4DevicePath, _>(DevicePathError::TruncatedHeader),
        header_ok_at(buf@, off as int) && !node_has_shape(buf@, off as int, PayloadShape::Ipv4)
            ==> r == Err::<IPv4DevicePath, _>(DevicePathError::WrongShapeForTag),
        node_has_shape(buf@, off as int, PayloadShape::Ipv4) && (IPProtocol::from_byte(
            buf@[off + 16],
        ) is None || StaticIPAddr::from_byte(buf@[off + 17]) is None) ==> r == Err::<
            IPv4DevicePath,
            _,
        >(DevicePathError::WrongShapeForTag),
        node_has_shape(buf@, off as int, PayloadShape::Ipv4) && IPProtocol::from_byte(
            buf@[off + 16],
        ) is Some && StaticIPAddr::from_byte(buf@[off + 17]) is Some ==> (r matches Ok(v) && ({
            let f = ipv4_fields_of(buf@.subrange(off + 4, off + 26));
            &&& v.local_ip@ == f.local_ip
            &&& v.remote_ip@ == f.remote_ip
            &&& v.local_port == f.local_port
            &&& v.remote_port == f.remote_port
            &&& Some(v.protocol) == IPProtocol::from_byte(f.protocol)
            &&& Some(v.static_ip) == StaticIPAddr::from_byte(f.static_ip)
            &&& v.gateway_ip@ == f.gateway_ip
            &&& v.subnet_mask@ == f.subnet_mask
        })),
{
    let h = match crate::codec::read_header(buf, off) {
        Ok(h) => h,
        Err(e) => {
            return Err(e);
        },
    };
    if h.length as usize > buf.len() - off {
        return Err(DevicePathError::TruncatedHeader);
    }
    match shape_of(h.device_type, h.sub_type) {
        Some(PayloadShape::Ipv4) => (),
        _ => {
            return Err(DevicePathError::WrongShapeForTag);
        },
    }
    if h.length != 26 {
        return Err(DevicePathError::WrongShapeForTag);
    }
    let protocol = match IPProtocol::from_u8(buf[off + 16]) {
        Some(t) => t,
        None => {
            return Err(DevicePathError::WrongShapeForTag);
        },
    };
    let static_ip = match StaticIPAddr::from_u8(buf[off + 17]) {
        Some(t) => t,
        None => {
            return Err(DevicePathError::WrongShapeForTag);
        },
    };
    let local_ip = read_quad(buf, off + 4);
    let remote_ip = read_quad(buf, off + 8);
    let local_port: u16 = buf[off + 12] as u16 + 256 * (buf[off + 13] as u16);
    let remote_port: u16 = buf[off + 14] as u16 + 256 * (buf[off + 15] as u16);
    let gateway_ip = read_quad(buf, off + 18);
    let subnet_mask = read_quad(buf, off + 22);
    let v = IPv4DevicePath {
        local_ip,
        remote_ip,
        local_port,
        remote_port,
        protocol,
        static_ip,
        gateway_ip,
        subnet_mask,
    };
    proof {
        let f = ipv4_fields_of(buf@.subrange(off + 4, off + 26));
        assert(v.local_ip@ =~= f.local_ip);
        assert(v.remote_ip@ =~= f.remote_ip);
        assert(v.gateway_ip@ =~= f.gateway_ip);
        assert(v.subnet_mask@ =~= f.subnet_mask);
    }
    Ok(v)
}

/// Reads the node at `off` as a URI payload after checking, against the
/// tag-to-shape table, that its tag carries that shape.  Fails like
/// `read_header` on an unreadable node, and with `WrongShapeForTag` when
/// the tag does not match the shape.
pub fn payload_as_uri(buf: &Vec<u8>, off: usize) -> (r: Result<URIDevicePath, DevicePathError>)
    ensures
        off + 4 > buf@.len() ==> r == Err::<URIDevicePath, _>(DevicePathError::TruncatedHeader),
        off + 4 <= buf@.len() && total_at(buf@, off as int) < 4 ==> r == Err::<URIDevicePath, _>(
            DevicePathError::InvalidLength,
        ),
        off + 4 <= buf@.len() && total_at(buf@, off as int) >= 4 && off + total_at(buf@, off as int)
            > buf@.len() ==> r == Err::<URIDevicePath, _>(DevicePathError::TruncatedHeader),
        header_ok_at(buf@, off as int) && !node_has_shape(buf@, off as int, PayloadShape::Uri) ==> r
            == Err::<URIDevicePath, _>(DevicePathError::WrongShapeForTag),
        node_has_shape(buf@, off as int, PayloadShape::Uri) ==> (r matches Ok(u) && u.uri@
            == buf@.subrange(off + 4, off + total_at(buf@, off as int))),
{
    let h = match crate::codec::read_header(buf, off) {
        Ok(h) => h,
        Err(e) => {
            return Err(e);
        },
    };
    if h.length as usize > buf.len() - off {
        return Err(DevicePathError::TruncatedHeader);
    }
    match shape_of(h.device_type, h.sub_type) {
        Some(PayloadShape::Uri) => (),
        _ => {
            return Err(DevicePathError::WrongShapeForTag);
        },
    }
    let end: usize = off + h.length as usize;
    let mut uri: Vec<u8> = Vec::new();
    let mut i: usize = off + 4;
    while i < end
        invariant
            off + 4 <= i <= end,
            end <= buf@.len(),
            uri@ == buf@.subrange(off + 4, i as int),
        decreases end - i,
    {
        uri.push(buf[i]);
        proof {
            assert(buf@.subrange(off + 4, i + 1) == buf@.subrange(off + 4, i as int).push(
                buf@[i as int],
            ));
        }
        i = i + 1;
    }
    Ok(URIDevicePath { uri })
}

} // verus!
