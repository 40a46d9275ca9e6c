//! The diagnostic decoder: a structured, human-readable dump of one node.
//!
//! `describe` names the node's tags and — only for pairs the tag-to-shape
//! table recognizes — renders the payload in its typed form.  It never
//! fails on tag content: a sub-type outside the known taxonomy, or a
//! length that does not match the recognized shape, degrades to raw-field
//! display, since a chain may legitimately carry vendor- or future-defined
//! tags.

use vstd::prelude::*;

use crate::codec::le16_read;
use crate::codec::le32_read;
use crate::codec::read_header;
use crate::codec::total_at;
use crate::error::DevicePathError;
use crate::navigate::header_ok_at;
use crate::payload::node_has_shape;
use crate::payload::shape_of;
use crate::payload::shape_of_tag;
use crate::payload::PayloadShape;
use crate::render::acpi_hid_text;
use crate::render::acpi_hid_string;
use crate::render::dec_text;
use crate::render::dec_u8_string;
use crate::render::dotted_quad;
use crate::render::hex_text;
use crate::render::hex_u32_string;
use crate::render::mac_string;
use crate::render::mac_text;
use crate::render::quad_string;
use crate::tags::ACPIPathSubType;
use crate::tags::BIOSBootSpecPathSubType;
use crate::tags::DeviceType;
use crate::tags::EndPathSubType;
use crate::tags::HardwarePathSubType;
use crate::tags::MediaPathSubType;
use crate::tags::MessagingPathSubType;

verus! {

/// The typed rendering of a recognized payload, or `Raw` where the tag or
/// its length is not recognized and only the raw fields are shown.
#[derive(Debug)]
pub enum DescribedData {
    /// No typed rendering: the tag is unrecognized, or its payload does
    /// not have the length its shape demands.
    Raw,
    /// A PCI location.
    Pci {
        /// PCI function number.
        function: u8,
        /// PCI device number.
        device: u8,
    },
    /// An ACPI ID pair, both parts decoded to text.
    Acpi {
        /// The hardware ID: three EISA letters and a hex number.
        hid: String,
        /// The unique ID in hexadecimal.
        uid: String,
    },
    /// A hardware address.
    Mac {
        /// The first six address bytes as colon-separated hex octets.
        address: String,
        /// The raw hardware-type code.
        iftype: u8,
    },
    /// An IPv4 session, addresses as dotted quads.
    Ipv4 {
        /// The local endpoint's address.
        local_ip: String,
        /// The remote endpoint's address.
        remote_ip: String,
        /// The local endpoint's port.
        local_port: u16,
        /// The remote endpoint's port.
        remote_port: u16,
        /// The raw protocol code.
        protocol: u8,
        /// The raw address-origin code.
        static_ip: u8,
        /// The gateway's address.
        gateway_ip: String,
        /// The subnet mask.
        subnet_mask: String,
    },
    /// A URI's raw bytes.
    Uri {
        /// The payload verbatim.
        data: Vec<u8>,
    },
}

/// A structured dump of one node: its tags by name where known and by
/// number always, its declared length, and a typed payload rendering for
/// recognized tags.
#[derive(Debug)]
pub struct NodeDescription {
    /// The major type code.
    pub major: u8,
    /// The major type's name, or the code in decimal where unknown.
    pub major_name: String,
    /// The sub-type code.
    pub sub: u8,
    /// The sub-type's name, where the pair is in the known taxonomy.
    pub sub_name: Option<String>,
    /// The node's declared total length.
    pub total_length: u16,
    /// The payload, rendered when the tag-to-shape table recognizes the
    /// tag and the length matches.
    pub data: DescribedData,
}

/// The major type's display name: its taxonomy name, or the code in
/// decimal where the code is unknown.
pub open spec fn major_name_text(b: u8) -> Seq<char> {
    match DeviceType::from_byte(b) {
        Some(t) => t.name_spec(),
        None => dec_text(b as int),
    }
}

/// The sub-type's display name under its major type, where the pair is in
/// the known taxonomy.
pub open spec fn sub_name_text(major: u8, sub: u8) -> Option<Seq<char>> {
    match DeviceType::from_byte(major) {
        Some(DeviceType::Hardware) => match HardwarePathSubType::from_byte(sub) {
            Some(t) => Some(t.name_spec()),
            None => None,
        },
        Some(DeviceType::ACPI) => match ACPIPathSubType::from_byte(sub) {
            Some(t) => Some(t.name_spec()),
            None => None,
        },
        Some(DeviceType::Messaging) => match MessagingPathSubType::from_byte(sub) {
            Some(t) => Some(t.name_spec()),
            None => None,
        },
        Some(DeviceType::Media) => match MediaPathSubType::from_byte(sub) {
            Some(t) => Some(t.name_spec()),
            None => None,
        },
        Some(DeviceType::BIOSBootSpec) => match BIOSBootSpecPathSubType::from_byte(sub) {
            Some(t) => Some(t.name_spec()),
            None => None,
        },
        Some(DeviceType::End) => match EndPathSubType::from_byte(sub) {
            Some(t) => Some(t.name_spec()),
            None => None,
        },
        None => None,
    }
}

/// The major type's display name.
fn major_name(b: u8) -> (r: String)
    ensures
        r@ == major_name_text(b),
{
    match DeviceType::from_u8(b) {
        Some(t) => t.name(),
        None => dec_u8_string(b),
    }
}

/// The sub-type's display name under its major type, where known.
fn sub_name(major: u8, sub: u8) -> (r: Option<String>)
    ensures
        match sub_name_text(major, sub) {
            Some(t) => r matches Some(n) && n@ == t,
            None => r is None,
        },
{
    match DeviceType::from_u8(major) {
        Some(DeviceType::Hardware) => match HardwarePathSubType::from_u8(sub) {
            Some(t) => Some(t.name()),
            None => None,
        },
        Some(DeviceType::ACPI) => match ACPIPathSubType::from_u8(sub) {
            Some(t) => Some(t.name()),
            None => None,
        },
        Some(DeviceType::Messaging) => match MessagingPathSubType::from_u8(sub) {
            Some(t) => Some(t.name()),
            None => None,
        },
        Some(DeviceType::Media) => match MediaPathSubType::from_u8(sub) {
            Some(t) => Some(t.name()),
            None => None,
        },
        Some(DeviceType::BIOSBootSpec) => match BIOSBootSpecPathSubType::from_u8(sub) {
            Some(t) => Some(t.name()),
            None => None,
        },
        Some(DeviceType::End) => match EndPathSubType::from_u8(sub) {
            Some(t) => Some(t.name()),
            None => None,
        },
        None => None,
    }
}

/// Describes the node at `off`: its tags by name and number, its declared
/// length, and — where the tag-to-shape table recognizes the tag and the
/// length fits the shape — a typed rendering of the payload.  Unrecognized
/// tags are shown raw, never rejected.  Fails only where the node itself
/// cannot be read: like `read_header`, and with `TruncatedHeader` when the
/// node's declared extent runs past the buffer's end.
pub fn describe(buf: &Vec<u8>, off: usize) -> (r: Result<NodeDescription, DevicePathError>)
    ensures
        off + 4 > buf@.len() ==> r == Err::<NodeDescription, _>(DevicePathError::TruncatedHeader),
        off + 4 <= buf@.len() && total_at(buf@, off as int) < 4 ==> r == Err::<NodeDescription, _>(
            DevicePathError::InvalidLength,
        ),
        off + 4 <= buf@.len() && total_at(buf@, off as int) >= 4 && off + total_at(buf@, off as int)
            > buf@.len() ==> r == Err::<NodeDescription, _>(DevicePathError::TruncatedHeader),
        header_ok_at(buf@, off as int) ==> (r matches Ok(d) && {
            let s = buf@;
            let o = off as int;
            &&& d.major == s[o]
            &&& d.sub == s[o + 1]
            &&& d.total_length == total_at(s, o)
            &&& d.major_name@ == major_name_text(s[o])
            &&& match sub_name_text(s[o], s[o + 1]) {
                Some(t) => d.sub_name matches Some(n) && n@ == t,
                None => d.sub_name is None,
            }
            &&& node_has_shape(s, o, PayloadShape::Pci) ==> (d.data matches DescribedData::Pci {
                function,
                device,
            } && function == s[o + 4] && device == s[o + 5])
            &&& node_has_shape(s, o, PayloadShape::Acpi) ==> (d.data matches DescribedData::Acpi {
                hid,
                uid,
            } && hid@ == acpi_hid_text(le32_read(s[o + 4], s[o + 5], s[o + 6], s[o + 7])) && uid@
                == hex_text(le32_read(s[o + 8], s[o + 9], s[o + 10], s[o + 11])))
            &&& node_has_shape(s, o, PayloadShape::Mac) ==> (d.data matches DescribedData::Mac {
                address,
                iftype,
            } && address@ == mac_text(s.subrange(o + 4, o + 10)) && iftype == s[o + 36])
            &&& node_has_shape(s, o, PayloadShape::Ipv4) ==> (d.data matches DescribedData::Ipv4 {
                local_ip,
                remote_ip,
                local_port,
                remote_port,
                protocol,
                static_ip,
                gateway_ip,
                subnet_mask,
            } && local_ip@ == dotted_quad(s.subrange(o + 4, o + 8)) && remote_ip@ == dotted_quad(
                s.subrange(o + 8, o + 12),
            ) && local_port == le16_read(s[o + 12], s[o + 13]) && remote_port == le16_read(
                s[o + 14],
                s[o + 15],
            ) && protocol == s[o + 16] && static_ip == s[o + 17] && gateway_ip@ == dotted_quad(
                s.subrange(o + 18, o + 22),
            ) && subnet_mask@ == dotted_quad(s.subrange(o + 22, o + 26)))
            &&& node_has_shape(s, o, PayloadShape::Uri) ==> (d.data matches DescribedData::Uri {
                data,
            } && data@ == s.subrange(o + 4, o + total_at(s, o)))
            &&& !node_has_shape(s, o, PayloadShape::Pci) && !node_has_shape(
                s,
                o,
                PayloadShape::Acpi,
            ) && !node_has_shape(s, o, PayloadShape::Mac) && !node_has_shape(
                s,
                o,
                PayloadShape::Ipv4,
            ) && !node_has_shape(s, o, PayloadShape::Uri) ==> d.data is Raw
        }),
{
    let h = match read_header(buf, off) {
        Ok(h) => h,
        Err(e) => {
            return Err(e);
        },
    };
    if h.length as usize > buf.len() - off {
        return Err(DevicePathError::TruncatedHeader);
    }
    let data = match shape_of(h.device_type, h.sub_type) {
        Some(PayloadShape::Pci) => {
            if h.length == 6 {
                DescribedData::Pci { function: buf[off + 4], device: buf[off + 5] }
            } else {
                DescribedData::Raw
            }
        },
        Some(PayloadShape::Acpi) => {
            if h.length == 12 {
                let hid: u32 = buf[off + 4] as u32 + 256 * (buf[off + 5] as u32) + 65536 * (buf[off
                    + 6] as u32) + 16777216 * (buf[off + 7] as u32);
                let uid: u32 = buf[off + 8] as u32 + 256 * (buf[off + 9] as u32) + 65536 * (buf[off
                    + 10] as u32) + 16777216 * (buf[off + 11] as u32);
                DescribedData::Acpi { hid: acpi_hid_string(hid), uid: hex_u32_string(uid) }
            } else {
                DescribedData::Raw
            }
        },
        Some(PayloadShape::Mac) => {
            if h.length == 37 {
                DescribedData::Mac { address: mac_string(buf, off + 4), iftype: buf[off + 36] }
            } else {
                DescribedData::Raw
            }
        },
        Some(PayloadShape::Ipv4) => {
            if h.length == 26 {
                DescribedData::Ipv4 {
                    local_ip: quad_string(buf, off + 4),
                    remote_ip: quad_string(buf, off + 8),
                    local_port: buf[off + 12] as u16 + 256 * (buf[off + 13] as u16),
                    remote_port: buf[off + 14] as u16 + 256 * (buf[off + 15] as u16),
                    protocol: buf[off + 16],
                    static_ip: buf[off + 17],
                    gateway_ip: quad_string(buf, off + 18),
                    subnet_mask: quad_string(buf, off + 22),
                }
            } else {
                DescribedData::Raw
            }
        },
        Some(PayloadShape::Uri) => {
            let end: usize = off + h.length as usize;
            let mut data: Vec<u8> = Vec::new();
            let mut i: usize = off + 4;
            while i < end
                invariant
                    off + 4 <= i <= end,
                    end <= buf@.len(),
                    data@ == buf@.subrange(off + 4, i as int),
                decreases end - i,
            {
                data.push(buf[i]);
                proof {
                    assert(buf@.subrange(off + 4, i + 1) == buf@.subrange(off + 4, i as int).push(
                        buf@[i as int],
                    ));
                }
                i = i + 1;
            }
            DescribedData::Uri { data }
        },
        None => DescribedData::Raw,
    };
    Ok(
        NodeDescription {
            major: h.device_type,
            major_name: major_name(h.device_type),
            sub: h.sub_type,
            sub_name: sub_name(h.device_type, h.sub_type),
            total_length: h.length,
            data,
        },
    )
}

/// A chain built from an encoded PCI node is recognized by the
/// tag-to-shape table, and its payload region holds exactly the fields the
/// node was made from — so `describe` reports them without loss.
pub proof fn lemma_describe_reports_pci(p: crate::payload::PCIDevicePath)
    ensures
        ({
            let s = crate::codec::node_bytes(0x01, 0x01, crate::payload::pci_bytes(p))
                + crate::codec::terminator_bytes();
            &&& node_has_shape(s, 0, PayloadShape::Pci)
            &&& s[4] == p.function
            &&& s[5] == p.device
        }),
{
    crate::codec::lemma_le16_roundtrip(6);
}

/// A chain built from an encoded ACPI node is recognized by the
/// tag-to-shape table, and its payload region stores exactly the IDs the
/// node was made from — so `describe` renders `hid` and `uid` from those
/// very values.
pub proof fn lemma_describe_reports_acpi(p: crate::payload::ACPIDevicePath)
    ensures
        ({
            let s = crate::codec::node_bytes(0x02, 0x01, crate::payload::acpi_bytes(p))
                + crate::codec::terminator_bytes();
            &&& node_has_shape(s, 0, PayloadShape::Acpi)
            &&& le32_read(s[4], s[5], s[6], s[7]) == p.hid
            &&& le32_read(s[8], s[9], s[10], s[11]) == p.uid
        }),
{
    crate::codec::lemma_le16_roundtrip(12);
    crate::codec::lemma_le32_roundtrip(p.hid as int);
    crate::codec::lemma_le32_roundtrip(p.uid as int);
    let s = crate::codec::node_bytes(0x02, 0x01, crate::payload::acpi_bytes(p))
        + crate::codec::terminator_bytes();
    let b = crate::payload::acpi_bytes(p);
    assert(s[4] == b[0] && s[5] == b[1] && s[6] == b[2] && s[7] == b[3]);
    assert(s[8] == b[4] && s[9] == b[5] && s[10] == b[6] && s[11] == b[7]);
    assert(b[4] == crate::codec::le32(p.uid as int)[0]);
    assert(b[5] == crate::codec::le32(p.uid as int)[1]);
    assert(b[6] == crate::codec::le32(p.uid as int)[2]);
    assert(b[7] == crate::codec::le32(p.uid as int)[3]);
}

/// A chain built from an encoded MAC node is recognized by the
/// tag-to-shape table, its first six payload bytes are the address bytes
/// the node was made from, and the hardware-type byte is the encoded
/// variant's code — so `describe` renders the address from those very
/// bytes.
pub proof fn lemma_describe_reports_mac(p: crate::payload::MACDevicePath)
    ensures
        ({
            let s = crate::codec::node_bytes(0x03, 0x0b, crate::payload::mac_bytes(p))
                + crate::codec::terminator_bytes();
            &&& node_has_shape(s, 0, PayloadShape::Mac)
            &&& s.subrange(4, 10) == p.address@.subrange(0, 6)
            &&& mac_text(s.subrange(4, 10)) == mac_text(p.address@.subrange(0, 6))
            &&& s[36] == p.iftype.as_byte()
        }),
{
    crate::codec::lemma_le16_roundtrip(37);
    let s = crate::codec::node_bytes(0x03, 0x0b, crate::payload::mac_bytes(p))
        + crate::codec::terminator_bytes();
    assert(s.subrange(4, 10) =~= p.address@.subrange(0, 6));
    assert(s[36] == crate::payload::mac_bytes(p)[32]);
}

/// A chain built from an encoded IPv4 node is recognized by the
/// tag-to-shape table, and every payload field reads back as the value the
/// node was made from — so `describe` renders the addresses, ports and
/// codes from those very values.
pub proof fn lemma_describe_reports_ipv4(p: crate::payload::IPv4DevicePath)
    ensures
        ({
            let s = crate::codec::node_bytes(0x03, 0x0c, crate::payload::ipv4_bytes(p))
                + crate::codec::terminator_bytes();
            &&& node_has_shape(s, 0, PayloadShape::Ipv4)
            &&& s.subrange(4, 8) == p.local_ip@
            &&& s.subrange(8, 12) == p.remote_ip@
            &&& le16_read(s[12], s[13]) == p.local_port
            &&& le16_read(s[14], s[15]) == p.remote_port
            &&& s[16] == p.protocol.as_byte()
            &&& s[17] == p.static_ip.as_byte()
            &&& s.subrange(18, 22) == p.gateway_ip@
            &&& s.subrange(22, 26) == p.subnet_mask@
        }),
{
    crate::codec::lemma_le16_roundtrip(26);
    crate::codec::lemma_le16_roundtrip(p.local_port as int);
    crate::codec::lemma_le16_roundtrip(p.remote_port as int);
    let s = crate::codec::node_bytes(0x03, 0x0c, crate::payload::ipv4_bytes(p))
        + crate::codec::terminator_bytes();
    let b = crate::payload::ipv4_bytes(p);
    assert(s.subrange(4, 8) =~= p.local_ip@);
    assert(s.subrange(8, 12) =~= p.remote_ip@);
    assert(s[12] == b[8] && s[13] == b[9]);
    assert(s[14] == b[10] && s[15] == b[11]);
    assert(b[8] == crate::codec::le16(p.local_port as int)[0]);
    assert(b[9] == crate::codec::le16(p.local_port as int)[1]);
    assert(b[10] == crate::codec::le16(p.remote_port as int)[0]);
    assert(b[11] == crate::codec::le16(p.remote_port as int)[1]);
    assert(s[16] == b[12] && s[17] == b[13]);
    assert(s.subrange(18, 22) =~= p.gateway_ip@);
    assert(s.subrange(22, 26) =~= p.subnet_mask@);
}

/// A chain built from an encoded URI node is recognized by the
/// tag-to-shape table, and its payload region is the URI's bytes verbatim
/// — so `describe` hands them back unchanged.
pub proof fn lemma_describe_reports_uri(p: &crate::payload::URIDevicePath)
    requires
        p.uri@.len() <= crate::codec::MAX_PAYLOAD_LEN,
    ensures
        ({
            let s = crate::codec::node_bytes(0x03, 0x18, crate::payload::uri_bytes(p))
                + crate::codec::terminator_bytes();
            &&& node_has_shape(s, 0, PayloadShape::Uri)
            &&& s.subrange(4, 4 + total_at(s, 0) - 4) == p.uri@
        }),
{
    crate::codec::lemma_le16_roundtrip(4 + p.uri@.len() as int);
    let s = crate::codec::node_bytes(0x03, 0x18, crate::payload::uri_bytes(p))
        + crate::codec::terminator_bytes();
    assert(s.subrange(4, 4 + p.uri@.len() as int) =~= p.uri@);
}

} // verus!
