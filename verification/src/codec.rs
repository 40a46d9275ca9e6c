//! The node codec: the 4-byte node header, little-endian length encoding,
//! and the byte layout of a single encoded node.
//!
//! A node on the wire is `major_type:u8 | sub_type:u8 | total_length:u16 (LE)
//! | payload:u8[total_length - 4]`.  `total_length` counts the header and the
//! payload of this node only, so a well-formed header never declares less
//! than 4.

use vstd::prelude::*;

use crate::error::DevicePathError;
use crate::tags::DeviceType;

verus! {

/// The largest payload that fits beside the 4-byte header in the 16-bit
/// total-length field.
pub const MAX_PAYLOAD_LEN: usize = 65531;

/// The two bytes of `v` in little-endian order.
pub open spec fn le16(v: int) -> Seq<u8> {
    seq![(v % 256) as u8, ((v / 256) % 256) as u8]
}

/// The four bytes of `v` in little-endian order.
pub open spec fn le32(v: int) -> Seq<u8> {
    seq![
        (v % 256) as u8,
        ((v / 256) % 256) as u8,
        ((v / 65536) % 256) as u8,
        ((v / 16777216) % 256) as u8,
    ]
}

/// The value stored by two little-endian bytes.
pub open spec fn le16_read(lo: u8, hi: u8) -> int {
    lo + 256 * hi
}

/// The value stored by four little-endian bytes.
pub open spec fn le32_read(b0: u8, b1: u8, b2: u8, b3: u8) -> int {
    b0 + 256 * b1 + 65536 * b2 + 16777216 * b3
}

/// Two little-endian bytes store exactly the 16-bit value they were made
/// from.
pub proof fn lemma_le16_roundtrip(v: int)
    requires
        0 <= v <= 0xffff,
    ensures
        le16_read(le16(v)[0], le16(v)[1]) == v,
{
    assert(v % 256 + 256 * ((v / 256) % 256) == v) by {
        assert(v / 256 < 256) by (nonlinear_arith)
            requires 0 <= v <= 0xffff;
        assert((v / 256) % 256 == v / 256);
        assert(v % 256 + 256 * (v / 256) == v) by (nonlinear_arith)
            requires 0 <= v;
    }
}

/// Four little-endian bytes store exactly the 32-bit value they were made
/// from.
pub proof fn lemma_le32_roundtrip(v: int)
    requires
        0 <= v <= 0xffff_ffff,
    ensures
        le32_read(le32(v)[0], le32(v)[1], le32(v)[2], le32(v)[3]) == v,
{
    assert(v % 256 + 256 * ((v / 256) % 256) + 65536 * ((v / 65536) % 256) + 16777216 * ((v
        / 16777216) % 256) == v) by (nonlinear_arith)
        requires 0 <= v <= 0xffff_ffff;
}

/// The bytes of one encoded node: the 4-byte header followed by the payload
/// verbatim.  Meaningful when `payload` holds at most `MAX_PAYLOAD_LEN`
/// bytes, so that `4 + payload.len()` fits the 16-bit length field.
pub open spec fn node_bytes(major: u8, sub: u8, payload: Seq<u8>) -> Seq<u8> {
    seq![major, sub] + le16(4 + payload.len() as int) + payload
}

/// The bytes of the record that closes every chain: an `End` / `EndEntire`
/// node with an empty payload.
pub open spec fn terminator_bytes() -> Seq<u8> {
    seq![0x7fu8, 0xffu8, 4u8, 0u8]
}

/// One node header, read back from a chain buffer.
///
/// `device_type` and `sub_type` are kept as raw bytes: a buffer may carry
/// vendor- or future-defined codes outside the known taxonomy, and such a
/// node must still be read and skipped.
#[derive(Debug, Clone, Copy, PartialEq, Eq, Structural)]
pub struct DevicePath {
    /// The major type code of the node.
    pub device_type: u8,
    /// The sub-type code; its meaning depends on `device_type`.
    pub sub_type: u8,
    /// Bytes of header and payload of this node together; at least 4.
    pub length: u16,
}

impl DevicePath {
    /// Bytes that this node occupies in its buffer: header plus payload.
    pub fn len(&self) -> (r: usize)
        ensures
            r == self.length,
    {
        self.length as usize
    }
}

/// The total length declared by the header at `off`: the 16-bit
/// little-endian value of its third and fourth byte.
pub open spec fn total_at(s: Seq<u8>, off: int) -> int {
    le16_read(s[off + 2], s[off + 3])
}

/// Reads the node header at `off`.  Fails with `TruncatedHeader` when fewer
/// than 4 bytes remain there, and with `InvalidLength` when the declared
/// total length is smaller than the header itself.
pub fn read_header(buf: &Vec<u8>, off: usize) -> (r: Result<DevicePath, DevicePathError>)
    ensures
        off + 4 > buf@.len() ==> r == Err::<DevicePath, _>(DevicePathError::TruncatedHeader),
        off + 4 <= buf@.len() && total_at(buf@, off as int) < 4 ==> r == Err::<DevicePath, _>(
            DevicePathError::InvalidLength,
        ),
        off + 4 <= buf@.len() && total_at(buf@, off as int) >= 4 ==> r == Ok::<_, DevicePathError>(
            DevicePath {
                device_type: buf@[off as int],
                sub_type: buf@[off + 1],
                length: total_at(buf@, off as int) as u16,
            },
        ),
{
    if buf.len() < 4 || off > buf.len() - 4 {
        return Err(DevicePathError::TruncatedHeader);
    }
    let lo = buf[off + 2];
    let hi = buf[off + 3];
    let total: u16 = lo as u16 + 256 * (hi as u16);
    if total < 4 {
        return Err(DevicePathError::InvalidLength);
    }
    Ok(DevicePath { device_type: buf[off], sub_type: buf[off + 1], length: total })
}

/// Appends one encoded node to `buf`: the 4-byte header (with
/// `total_length = 4 + payload.len()`, little-endian) followed by a verbatim
/// copy of `payload`.
pub(crate) fn stamp(buf: &mut Vec<u8>, device_type: u8, sub_type: u8, payload: &Vec<u8>)
    requires
        payload@.len() <= MAX_PAYLOAD_LEN,
    ensures
        final(buf)@ == old(buf)@ + node_bytes(device_type, sub_type, payload@),
{
    let total: usize = 4 + payload.len();
    buf.push(device_type);
    buf.push(sub_type);
    buf.push((total % 256) as u8);
    buf.push(((total / 256) % 256) as u8);
    let mut i: usize = 0;
    while i < payload.len()
        invariant
            i <= payload@.len(),
            payload@.len() <= MAX_PAYLOAD_LEN,
            total == 4 + payload@.len(),
            buf@ == old(buf)@ + seq![
                device_type,
                sub_type,
                (total as int % 256) as u8,
                ((total as int / 256) % 256) as u8,
            ] + payload@.subrange(0, i as int),
        decreases payload@.len() - i,
    {
        buf.push(payload[i]);
        proof {
            assert(payload@.subrange(0, i + 1) == payload@.subrange(0, i as int).push(
                payload@[i as int],
            ));
        }
        i = i + 1;
    }
    proof {
        assert(payload@.subrange(0, payload@.len() as int) == payload@);
        assert(buf@ == old(buf)@ + node_bytes(device_type, sub_type, payload@));
    }
}

/// Appends one encoded node to `buf`, after checking the payload against
/// the 16-bit length budget: fails with `PayloadTooLarge`, leaving `buf` as
/// it was, when `4 + payload.len()` would not fit the length field.
pub fn encode_node(
    buf: &mut Vec<u8>,
    device_type: DeviceType,
    sub_type: u8,
    payload: &Vec<u8>,
) -> (r: Result<(), DevicePathError>)
    ensures
        payload@.len() > MAX_PAYLOAD_LEN ==> r == Err::<(), _>(DevicePathError::PayloadTooLarge)
            && final(buf)@ == old(buf)@,
        payload@.len() <= MAX_PAYLOAD_LEN ==> r == Ok::<_, DevicePathError>(()) && final(buf)@
            == old(buf)@ + node_bytes(device_type.as_byte(), sub_type, payload@),
{
    if payload.len() > MAX_PAYLOAD_LEN {
        return Err(DevicePathError::PayloadTooLarge);
    }
    stamp(buf, device_type.to_u8(), sub_type, payload);
    Ok(())
}

/// An encoded node gives back, byte for byte, the tag and the payload it
/// was made from: the header names the tag and the declared total length,
/// and the bytes after the header are the payload verbatim.
pub proof fn lemma_encode_roundtrip(major: u8, sub: u8, payload: Seq<u8>)
    requires
        payload.len() <= MAX_PAYLOAD_LEN,
    ensures
        ({
            let s = node_bytes(major, sub, payload);
            &&& s.len() == 4 + payload.len()
            &&& s[0] == major
            &&& s[1] == sub
            &&& total_at(s, 0) == 4 + payload.len()
            &&& s.subrange(4, s.len() as int) == payload
        }),
{
    let s = node_bytes(major, sub, payload);
    lemma_le16_roundtrip(4 + payload.len() as int);
    assert(s.subrange(4, s.len() as int) == payload);
}

} // verus!
