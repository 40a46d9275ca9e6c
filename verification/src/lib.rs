//! Device-path chains: a self-describing, type-tagged, variable-length
//! binary record format used to name hardware and firmware resources.
//!
//! A *node* is a fixed 4-byte header (major type, sub-type, total length in
//! little-endian) followed by a payload of `total_length - 4` bytes.  A
//! *chain* is a sequence of nodes laid out back to back in one buffer,
//! closed by a terminator node (`End` / `EndEntire`).  This crate encodes
//! typed payloads into such chains, walks a chain without a length table,
//! concatenates chains, and decodes nodes for inspection.

pub mod builder;
pub mod codec;
pub mod describe;
pub mod error;
pub mod navigate;
pub mod payload;
pub mod render;
pub mod tags;

pub use builder::build_many;
pub use builder::build_single;
pub use builder::DevicePathBox;
pub use builder::DevicePathPayload;
pub use codec::encode_node;
pub use codec::read_header;
pub use codec::DevicePath;
pub use describe::describe;
pub use describe::DescribedData;
pub use describe::NodeDescription;
pub use error::DevicePathError;
pub use navigate::chain_byte_length;
pub use navigate::next;
pub use navigate::walk;
pub use payload::payload_as_acpi;
pub use payload::payload_as_ipv4;
pub use payload::payload_as_mac;
pub use payload::payload_as_pci;
pub use payload::payload_as_uri;
pub use payload::ACPIDevicePath;
pub use payload::IPv4DevicePath;
pub use payload::MACDevicePath;
pub use payload::PCIDevicePath;
pub use payload::Payload;
pub use payload::PayloadShape;
pub use payload::URIDevicePath;
pub use tags::ACPIPathSubType;
pub use tags::BIOSBootSpecPathSubType;
pub use tags::DeviceType;
pub use tags::EndPathSubType;
pub use tags::HardwarePathSubType;
pub use tags::HardwareType;
pub use tags::IPProtocol;
pub use tags::MediaPathSubType;
pub use tags::MessagingPathSubType;
pub use tags::StaticIPAddr;
