//! The two-level tag taxonomy of device-path nodes: the major type and,
//! under each major type, its sub-types, together with the hardware-type
//! codes that appear inside a MAC payload and the protocol and
//! address-origin codes that appear inside an IPv4 payload.
//!
//! Every enumeration here stands for a fixed byte code on the wire.
//! `as_byte` gives the code of a variant, `from_byte` the variant of a
//! code (`None` for a code outside the enumeration).

use vstd::prelude::*;

verus! {

/// The major type of a device-path node.
#[derive(Debug, Clone, Copy, PartialEq, Eq, Structural)]
pub enum DeviceType {
    Hardware,
    ACPI,
    Messaging,
    Media,
    BIOSBootSpec,
    End,
}

impl DeviceType {
    /// The byte code of this variant.
    pub open spec fn as_byte(self) -> u8 {
        match self {
            DeviceType::Hardware => 0x01,
            DeviceType::ACPI => 0x02,
            DeviceType::Messaging => 0x03,
            DeviceType::Media => 0x04,
            DeviceType::BIOSBootSpec => 0x05,
            DeviceType::End => 0x7f,
        }
    }

    pub fn to_u8(self) -> (r: u8)
        ensures
            r == self.as_byte(),
    {
        match self {
            DeviceType::Hardware => 0x01,
            DeviceType::ACPI => 0x02,
            DeviceType::Messaging => 0x03,
            DeviceType::Media => 0x04,
            DeviceType::BIOSBootSpec => 0x05,
            DeviceType::End => 0x7f,
        }
    }

    /// The variant whose code is `b`, if there is one.
    pub open spec fn from_byte(b: u8) -> Option<DeviceType> {
        if b == 0x01 {
            Some(DeviceType::Hardware)
        } else if b == 0x02 {
            Some(DeviceType::ACPI)
        } else if b == 0x03 {
            Some(DeviceType::Messaging)
        } else if b == 0x04 {
            Some(DeviceType::Media)
        } else if b == 0x05 {
            Some(DeviceType::BIOSBootSpec)
        } else if b == 0x7f {
            Some(DeviceType::End)
        } else {
            None
        }
    }

    pub fn from_u8(b: u8) -> (r: Option<DeviceType>)
        ensures
            r == DeviceType::from_byte(b),
    {
        if b == 0x01 {
            Some(DeviceType::Hardware)
        } else if b == 0x02 {
            Some(DeviceType::ACPI)
        } else if b == 0x03 {
            Some(DeviceType::Messaging)
        } else if b == 0x04 {
            Some(DeviceType::Media)
        } else if b == 0x05 {
            Some(DeviceType::BIOSBootSpec)
        } else if b == 0x7f {
            Some(DeviceType::End)
        } else {
            None
        }
    }

    /// The variant's name, as it is shown by the diagnostic decoder.
    pub open spec fn name_spec(self) -> Seq<char> {
        match self {
            DeviceType::Hardware => "Hardware"@,
            DeviceType::ACPI => "ACPI"@,
            DeviceType::Messaging => "Messaging"@,
            DeviceType::Media => "Media"@,
            DeviceType::BIOSBootSpec => "BIOSBootSpec"@,
            DeviceType::End => "End"@,
        }
    }

    pub fn name(self) -> (r: String)
        ensures
            r@ == self.name_spec(),
    {
        match self {
            DeviceType::Hardware => String::from_str("Hardware"),
            DeviceType::ACPI => String::from_str("ACPI"),
            DeviceType::Messaging => String::from_str("Messaging"),
            DeviceType::Media => String::from_str("Media"),
            DeviceType::BIOSBootSpec => String::from_str("BIOSBootSpec"),
            DeviceType::End => String::from_str("End"),
        }
    }
}

/// Sub-types of an `End` node: an instance separator or the chain terminator.
#[derive(Debug, Clone, Copy, PartialEq, Eq, Structural)]
pub enum EndPathSubType {
    EndInstance,
    EndEntire,
}

impl EndPathSubType {
    /// The byte code of this variant.
    pub open spec fn as_byte(self) -> u8 {
        match self {
            EndPathSubType::EndInstance => 0x01,
            EndPathSubType::EndEntire => 0xff,
        }
    }

    pub fn to_u8(self) -> (r: u8)
        ensures
            r == self.as_byte(),
    {
        match self {
            EndPathSubType::EndInstance => 0x01,
            EndPathSubType::EndEntire => 0xff,
        }
    }

    /// The variant whose code is `b`, if there is one.
    pub open spec fn from_byte(b: u8) -> Option<EndPathSubType> {
        if b == 0x01 {
            Some(EndPathSubType::EndInstance)
        } else if b == 0xff {
            Some(EndPathSubType::EndEntire)
        } else {
            None
        }
    }

    pub fn from_u8(b: u8) -> (r: Option<EndPathSubType>)
        ensures
            r == EndPathSubType::from_byte(b),
    {
        if b == 0x01 {
            Some(EndPathSubType::EndInstance)
        } else if b == 0xff {
            Some(EndPathSubType::EndEntire)
        } else {
            None
        }
    }

    /// The variant's name, as it is shown by the diagnostic decoder.
    pub open spec fn name_spec(self) -> Seq<char> {
        match self {
            EndPathSubType::EndInstance => "EndInstance"@,
            EndPathSubType::EndEntire => "EndEntire"@,
        }
    }

    pub fn name(self) -> (r: String)
        ensures
            r@ == self.name_spec(),
    {
        match self {
            EndPathSubType::EndInstance => String::from_str("EndInstance"),
            EndPathSubType::EndEntire => String::from_str("EndEntire"),
        }
    }
}

/// Sub-types of a `Hardware` node.
#[derive(Debug, Clone, Copy, PartialEq, Eq, Structural)]
pub enum HardwarePathSubType {
    PCI,
    PCCARD,
    MemoryMapped,
    Vendor,
    Controller,
    BMC,
}

impl HardwarePathSubType {
    /// The byte code of this variant.
    pub open spec fn as_byte(self) -> u8 {
        match self {
            HardwarePathSubType::PCI => 1,
            HardwarePathSubType::PCCARD => 2,
            HardwarePathSubType::MemoryMapped => 3,
            HardwarePathSubType::Vendor => 4,
            HardwarePathSubType::Controller => 5,
            HardwarePathSubType::BMC => 6,
        }
    }

    pub fn to_u8(self) -> (r: u8)
        ensures
            r == self.as_byte(),
    {
        match self {
            HardwarePathSubType::PCI => 1,
            HardwarePathSubType::PCCARD => 2,
            HardwarePathSubType::MemoryMapped => 3,
            HardwarePathSubType::Vendor => 4,
            HardwarePathSubType::Controller => 5,
            HardwarePathSubType::BMC => 6,
        }
    }

    /// The variant whose code is `b`, if there is one.
    pub open spec fn from_byte(b: u8) -> Option<HardwarePathSubType> {
        if b == 1 {
            Some(HardwarePathSubType::PCI)
        } else if b == 2 {
            Some(HardwarePathSubType::PCCARD)
        } else if b == 3 {
            Some(HardwarePathSubType::MemoryMapped)
        } else if b == 4 {
            Some(HardwarePathSubType::Vendor)
        } else if b == 5 {
            Some(HardwarePathSubType::Controller)
        } else if b == 6 {
            Some(HardwarePathSubType::BMC)
        } else {
            None
        }
    }

    pub fn from_u8(b: u8) -> (r: Option<HardwarePathSubType>)
        ensures
            r == HardwarePathSubType::from_byte(b),
    {
        if b == 1 {
            Some(HardwarePathSubType::PCI)
        } else if b == 2 {
            Some(HardwarePathSubType::PCCARD)
        } else if b == 3 {
            Some(HardwarePathSubType::MemoryMapped)
        } else if b == 4 {
            Some(HardwarePathSubType::Vendor)
        } else if b == 5 {
            Some(HardwarePathSubType::Controller)
        } else if b == 6 {
            Some(HardwarePathSubType::BMC)
        } else {
            None
        }
    }

    /// The variant's name, as it is shown by the diagnostic decoder.
    pub open spec fn name_spec(self) -> Seq<char> {
        match self {
            HardwarePathSubType::PCI => "PCI"@,
            HardwarePathSubType::PCCARD => "PCCARD"@,
            HardwarePathSubType::MemoryMapped => "MemoryMapped"@,
            HardwarePathSubType::Vendor => "Vendor"@,
            HardwarePathSubType::Controller => "Controller"@,
            HardwarePathSubType::BMC => "BMC"@,
        }
    }

    pub fn name(self) -> (r: String)
        ensures
            r@ == self.name_spec(),
    {
        match self {
            HardwarePathSubType::PCI => String::from_str("PCI"),
            HardwarePathSubType::PCCARD => String::from_str("PCCARD"),
            HardwarePathSubType::MemoryMapped => String::from_str("MemoryMapped"),
            HardwarePathSubType::Vendor => String::from_str("Vendor"),
            HardwarePathSubType::Controller => String::from_str("Controller"),
            HardwarePathSubType::BMC => String::from_str("BMC"),
        }
    }
}

/// Sub-types of an `ACPI` node.
#[derive(Debug, Clone, Copy, PartialEq, Eq, Structural)]
pub enum ACPIPathSubType {
    ACPI,
    ExpandedACPI,
    ADR,
}

impl ACPIPathSubType {
    /// The byte code of this variant.
    pub open spec fn as_byte(self) -> u8 {
        match self {
            ACPIPathSubType::ACPI => 1,
            ACPIPathSubType::ExpandedACPI => 2,
            ACPIPathSubType::ADR => 3,
        }
    }

    pub fn to_u8(self) -> (r: u8)
        ensures
            r == self.as_byte(),
    {
        match self {
            ACPIPathSubType::ACPI => 1,
            ACPIPathSubType::ExpandedACPI => 2,
            ACPIPathSubType::ADR => 3,
        }
    }

    /// The variant whose code is `b`, if there is one.
    pub open spec fn from_byte(b: u8) -> Option<ACPIPathSubType> {
        if b == 1 {
            Some(ACPIPathSubType::ACPI)
        } else if b == 2 {
            Some(ACPIPathSubType::ExpandedACPI)
        } else if b == 3 {
            Some(ACPIPathSubType::ADR)
        } else {
            None
        }
    }

    pub fn from_u8(b: u8) -> (r: Option<ACPIPathSubType>)
        ensures
            r == ACPIPathSubType::from_byte(b),
    {
        if b == 1 {
            Some(ACPIPathSubType::ACPI)
        } else if b == 2 {
            Some(ACPIPathSubType::ExpandedACPI)
        } else if b == 3 {
            Some(ACPIPathSubType::ADR)
        } else {
            None
        }
    }

    /// The variant's name, as it is shown by the diagnostic decoder.
    pub open spec fn name_spec(self) -> Seq<char> {
        match self {
            ACPIPathSubType::ACPI => "ACPI"@,
            ACPIPathSubType::ExpandedACPI => "ExpandedACPI"@,
            ACPIPathSubType::ADR => "ADR"@,
        }
    }

    pub fn name(self) -> (r: String)
        ensures
            r@ == self.name_spec(),
    {
        match self {
            ACPIPathSubType::ACPI => String::from_str("ACPI"),
            ACPIPathSubType::ExpandedACPI => String::from_str("ExpandedACPI"),
            ACPIPathSubType::ADR => String::from_str("ADR"),
        }
    }
}

/// Sub-types of a `Messaging` node.
#[derive(Debug, Clone, Copy, PartialEq, Eq, Structural)]
pub enum MessagingPathSubType {
    ATAPI,
    SCSI,
    FibreChannel,
    IEEE1394,
    USB,
    I20,
    InfiniBand,
    Vendor,
    MAC,
    IPv4,
    IPv6,
    UART,
    USBClass,
    WWID,
    LogicalUnit,
    SATA,
    ISCSI,
    VLAN,
    FiberChannelEx,
    SASEx,
    NVME,
    URI,
    UFS,
    SD,
    Bluetooth,
    Wireless,
    EMMC,
}

impl MessagingPathSubType {
    /// The byte code of this variant.
    pub open spec fn as_byte(self) -> u8 {
        match self {
            MessagingPathSubType::ATAPI => 1,
            MessagingPathSubType::SCSI => 2,
            MessagingPathSubType::FibreChannel => 3,
            MessagingPathSubType::IEEE1394 => 4,
            MessagingPathSubType::USB => 5,
            MessagingPathSubType::I20 => 6,
            MessagingPathSubType::InfiniBand => 9,
            MessagingPathSubType::Vendor => 10,
            MessagingPathSubType::MAC => 11,
            MessagingPathSubType::IPv4 => 12,
            MessagingPathSubType::IPv6 => 13,
            MessagingPathSubType::UART => 14,
            MessagingPathSubType::USBClass => 15,
            MessagingPathSubType::WWID => 16,
            MessagingPathSubType::LogicalUnit => 17,
            MessagingPathSubType::SATA => 18,
            MessagingPathSubType::ISCSI => 19,
            MessagingPathSubType::VLAN => 20,
            MessagingPathSubType::FiberChannelEx => 21,
            MessagingPathSubType::SASEx => 22,
            MessagingPathSubType::NVME => 23,
            MessagingPathSubType::URI => 24,
            MessagingPathSubType::UFS => 25,
            MessagingPathSubType::SD => 26,
            MessagingPathSubType::Bluetooth => 27,
            MessagingPathSubType::Wireless => 28,
            MessagingPathSubType::EMMC => 29,
        }
    }

    pub fn to_u8(self) -> (r: u8)
        ensures
            r == self.as_byte(),
    {
        match self {
            MessagingPathSubType::ATAPI => 1,
            MessagingPathSubType::SCSI => 2,
            MessagingPathSubType::FibreChannel => 3,
            MessagingPathSubType::IEEE1394 => 4,
            MessagingPathSubType::USB => 5,
            MessagingPathSubType::I20 => 6,
            MessagingPathSubType::InfiniBand => 9,
            MessagingPathSubType::Vendor => 10,
            MessagingPathSubType::MAC => 11,
            MessagingPathSubType::IPv4 => 12,
            MessagingPathSubType::IPv6 => 13,
            MessagingPathSubType::UART => 14,
            MessagingPathSubType::USBClass => 15,
            MessagingPathSubType::WWID => 16,
            MessagingPathSubType::LogicalUnit => 17,
            MessagingPathSubType::SATA => 18,
            MessagingPathSubType::ISCSI => 19,
            MessagingPathSubType::VLAN => 20,
            MessagingPathSubType::FiberChannelEx => 21,
            MessagingPathSubType::SASEx => 22,
            MessagingPathSubType::NVME => 23,
            MessagingPathSubType::URI => 24,
            MessagingPathSubType::UFS => 25,
            MessagingPathSubType::SD => 26,
            MessagingPathSubType::Bluetooth => 27,
            MessagingPathSubType::Wireless => 28,
            MessagingPathSubType::EMMC => 29,
        }
    }

    /// The variant whose code is `b`, if there is one.
    pub open spec fn from_byte(b: u8) -> Option<MessagingPathSubType> {
        if b == 1 {
            Some(MessagingPathSubType::ATAPI)
        } else if b == 2 {
            Some(MessagingPathSubType::SCSI)
        } else if b == 3 {
            Some(MessagingPathSubType::FibreChannel)
        } else if b == 4 {
            Some(MessagingPathSubType::IEEE1394)
        } else if b == 5 {
            Some(MessagingPathSubType::USB)
        } else if b == 6 {
            Some(MessagingPathSubType::I20)
        } else if b == 9 {
            Some(MessagingPathSubType::InfiniBand)
        } else if b == 10 {
            Some(MessagingPathSubType::Vendor)
        } else if b == 11 {
            Some(MessagingPathSubType::MAC)
        } else if b == 12 {
            Some(MessagingPathSubType::IPv4)
        } else if b == 13 {
            Some(MessagingPathSubType::IPv6)
        } else if b == 14 {
            Some(MessagingPathSubType::UART)
        } else if b == 15 {
            Some(MessagingPathSubType::USBClass)
        } else if b == 16 {
            Some(MessagingPathSubType::WWID)
        } else if b == 17 {
            Some(MessagingPathSubType::LogicalUnit)
        } else if b == 18 {
            Some(MessagingPathSubType::SATA)
        } else if b == 19 {
            Some(MessagingPathSubType::ISCSI)
        } else if b == 20 {
            Some(MessagingPathSubType::VLAN)
        } else if b == 21 {
            Some(MessagingPathSubType::FiberChannelEx)
        } else if b == 22 {
            Some(MessagingPathSubType::SASEx)
        } else if b == 23 {
            Some(MessagingPathSubType::NVME)
        } else if b == 24 {
            Some(MessagingPathSubType::URI)
        } else if b == 25 {
            Some(MessagingPathSubType::UFS)
        } else if b == 26 {
            Some(MessagingPathSubType::SD)
        } else if b == 27 {
            Some(MessagingPathSubType::Bluetooth)
        } else if b == 28 {
            Some(MessagingPathSubType::Wireless)
        } else if b == 29 {
            Some(MessagingPathSubType::EMMC)
        } else {
            None
        }
    }

    pub fn from_u8(b: u8) -> (r: Option<MessagingPathSubType>)
        ensures
            r == MessagingPathSubType::from_byte(b),
    {
        if b == 1 {
            Some(MessagingPathSubType::ATAPI)
        } else if b == 2 {
            Some(MessagingPathSubType::SCSI)
        } else if b == 3 {
            Some(MessagingPathSubType::FibreChannel)
        } else if b == 4 {
            Some(MessagingPathSubType::IEEE1394)
        } else if b == 5 {
            Some(MessagingPathSubType::USB)
        } else if b == 6 {
            Some(MessagingPathSubType::I20)
        } else if b == 9 {
            Some(MessagingPathSubType::InfiniBand)
        } else if b == 10 {
            Some(MessagingPathSubType::Vendor)
        } else if b == 11 {
            Some(MessagingPathSubType::MAC)
        } else if b == 12 {
            Some(MessagingPathSubType::IPv4)
        } else if b == 13 {
            Some(MessagingPathSubType::IPv6)
        } else if b == 14 {
            Some(MessagingPathSubType::UART)
        } else if b == 15 {
            Some(MessagingPathSubType::USBClass)
        } else if b == 16 {
            Some(MessagingPathSubType::WWID)
        } else if b == 17 {
            Some(MessagingPathSubType::LogicalUnit)
        } else if b == 18 {
            Some(MessagingPathSubType::SATA)
        } else if b == 19 {
            Some(MessagingPathSubType::ISCSI)
        } else if b == 20 {
            Some(MessagingPathSubType::VLAN)
        } else if b == 21 {
            Some(MessagingPathSubType::FiberChannelEx)
        } else if b == 22 {
            Some(MessagingPathSubType::SASEx)
        } else if b == 23 {
            Some(MessagingPathSubType::NVME)
        } else if b == 24 {
            Some(MessagingPathSubType::URI)
        } else if b == 25 {
            Some(MessagingPathSubType::UFS)
        } else if b == 26 {
            Some(MessagingPathSubType::SD)
        } else if b == 27 {
            Some(MessagingPathSubType::Bluetooth)
        } else if b == 28 {
            Some(MessagingPathSubType::Wireless)
        } else if b == 29 {
            Some(MessagingPathSubType::EMMC)
        } else {
            None
        }
    }

    /// The variant's name, as it is shown by the diagnostic decoder.
    pub open spec fn name_spec(self) -> Seq<char> {
        match self {
            MessagingPathSubType::ATAPI => "ATAPI"@,
            MessagingPathSubType::SCSI => "SCSI"@,
            MessagingPathSubType::FibreChannel => "FibreChannel"@,
            MessagingPathSubType::IEEE1394 => "IEEE1394"@,
            MessagingPathSubType::USB => "USB"@,
            MessagingPathSubType::I20 => "I20"@,
            MessagingPathSubType::InfiniBand => "InfiniBand"@,
            MessagingPathSubType::Vendor => "Vendor"@,
            MessagingPathSubType::MAC => "MAC"@,
            MessagingPathSubType::IPv4 => "IPv4"@,
            MessagingPathSubType::IPv6 => "IPv6"@,
            MessagingPathSubType::UART => "UART"@,
            MessagingPathSubType::USBClass => "USBClass"@,
            MessagingPathSubType::WWID => "WWID"@,
            MessagingPathSubType::LogicalUnit => "LogicalUnit"@,
            MessagingPathSubType::SATA => "SATA"@,
            MessagingPathSubType::ISCSI => "ISCSI"@,
            MessagingPathSubType::VLAN => "VLAN"@,
            MessagingPathSubType::FiberChannelEx => "FiberChannelEx"@,
            MessagingPathSubType::SASEx => "SASEx"@,
            MessagingPathSubType::NVME => "NVME"@,
            MessagingPathSubType::URI => "URI"@,
            MessagingPathSubType::UFS => "UFS"@,
            MessagingPathSubType::SD => "SD"@,
            MessagingPathSubType::Bluetooth => "Bluetooth"@,
            MessagingPathSubType::Wireless => "Wireless"@,
            MessagingPathSubType::EMMC => "EMMC"@,
        }
    }

    pub fn name(self) -> (r: String)
        ensures
            r@ == self.name_spec(),
    {
        match self {
            MessagingPathSubType::ATAPI => String::from_str("ATAPI"),
            MessagingPathSubType::SCSI => String::from_str("SCSI"),
            MessagingPathSubType::FibreChannel => String::from_str("FibreChannel"),
            MessagingPathSubType::IEEE1394 => String::from_str("IEEE1394"),
            MessagingPathSubType::USB => String::from_str("USB"),
            MessagingPathSubType::I20 => String::from_str("I20"),
            MessagingPathSubType::InfiniBand => String::from_str("InfiniBand"),
            MessagingPathSubType::Vendor => String::from_str("Vendor"),
            MessagingPathSubType::MAC => String::from_str("MAC"),
            MessagingPathSubType::IPv4 => String::from_str("IPv4"),
            MessagingPathSubType::IPv6 => String::from_str("IPv6"),
            MessagingPathSubType::UART => String::from_str("UART"),
            MessagingPathSubType::USBClass => String::from_str("USBClass"),
            MessagingPathSubType::WWID => String::from_str("WWID"),
            MessagingPathSubType::LogicalUnit => String::from_str("LogicalUnit"),
            MessagingPathSubType::SATA => String::from_str("SATA"),
            MessagingPathSubType::ISCSI => String::from_str("ISCSI"),
            MessagingPathSubType::VLAN => String::from_str("VLAN"),
            MessagingPathSubType::FiberChannelEx => String::from_str("FiberChannelEx"),
            MessagingPathSubType::SASEx => String::from_str("SASEx"),
            MessagingPathSubType::NVME => String::from_str("NVME"),
            MessagingPathSubType::URI => String::from_str("URI"),
            MessagingPathSubType::UFS => String::from_str("UFS"),
            MessagingPathSubType::SD => String::from_str("SD"),
            MessagingPathSubType::Bluetooth => String::from_str("Bluetooth"),
            MessagingPathSubType::Wireless => String::from_str("Wireless"),
            MessagingPathSubType::EMMC => String::from_str("EMMC"),
        }
    }
}

/// Sub-types of a `Media` node.
#[derive(Debug, Clone, Copy, PartialEq, Eq, Structural)]
pub enum MediaPathSubType {
    HardDrive,
    CDROM,
    Vendor,
    File,
    MediaProtocol,
    PWIGFirmware,
    PWIGFirmwareVolume,
    RelativeOffsetRange,
    RAMDisk,
}

impl MediaPathSubType {
    /// The byte code of this variant.
    pub open spec fn as_byte(self) -> u8 {
        match self {
            MediaPathSubType::HardDrive => 1,
            MediaPathSubType::CDROM => 2,
            MediaPathSubType::Vendor => 3,
            MediaPathSubType::File => 4,
            MediaPathSubType::MediaProtocol => 5,
            MediaPathSubType::PWIGFirmware => 6,
            MediaPathSubType::PWIGFirmwareVolume => 7,
            MediaPathSubType::RelativeOffsetRange => 8,
            MediaPathSubType::RAMDisk => 9,
        }
    }

    pub fn to_u8(self) -> (r: u8)
        ensures
            r == self.as_byte(),
    {
        match self {
            MediaPathSubType::HardDrive => 1,
            MediaPathSubType::CDROM => 2,
            MediaPathSubType::Vendor => 3,
            MediaPathSubType::File => 4,
            MediaPathSubType::MediaProtocol => 5,
            MediaPathSubType::PWIGFirmware => 6,
            MediaPathSubType::PWIGFirmwareVolume => 7,
            MediaPathSubType::RelativeOffsetRange => 8,
            MediaPathSubType::RAMDisk => 9,
        }
    }

    /// The variant whose code is `b`, if there is one.
    pub open spec fn from_byte(b: u8) -> Option<MediaPathSubType> {
        if b == 1 {
            Some(MediaPathSubType::HardDrive)
        } else if b == 2 {
            Some(MediaPathSubType::CDROM)
        } else if b == 3 {
            Some(MediaPathSubType::Vendor)
        } else if b == 4 {
            Some(MediaPathSubType::File)
        } else if b == 5 {
            Some(MediaPathSubType::MediaProtocol)
        } else if b == 6 {
            Some(MediaPathSubType::PWIGFirmware)
        } else if b == 7 {
            Some(MediaPathSubType::PWIGFirmwareVolume)
        } else if b == 8 {
            Some(MediaPathSubType::RelativeOffsetRange)
        } else if b == 9 {
            Some(MediaPathSubType::RAMDisk)
        } else {
            None
        }
    }

    pub fn from_u8(b: u8) -> (r: Option<MediaPathSubType>)
        ensures
            r == MediaPathSubType::from_byte(b),
    {
        if b == 1 {
            Some(MediaPathSubType::HardDrive)
        } else if b == 2 {
            Some(MediaPathSubType::CDROM)
        } else if b == 3 {
            Some(MediaPathSubType::Vendor)
        } else if b == 4 {
            Some(MediaPathSubType::File)
        } else if b == 5 {
            Some(MediaPathSubType::MediaProtocol)
        } else if b == 6 {
            Some(MediaPathSubType::PWIGFirmware)
        } else if b == 7 {
            Some(MediaPathSubType::PWIGFirmwareVolume)
        } else if b == 8 {
            Some(MediaPathSubType::RelativeOffsetRange)
        } else if b == 9 {
            Some(MediaPathSubType::RAMDisk)
        } else {
            None
        }
    }

    /// The variant's name, as it is shown by the diagnostic decoder.
    pub open spec fn name_spec(self) -> Seq<char> {
        match self {
            MediaPathSubType::HardDrive => "HardDrive"@,
            MediaPathSubType::CDROM => "CDROM"@,
            MediaPathSubType::Vendor => "Vendor"@,
            MediaPathSubType::File => "File"@,
            MediaPathSubType::MediaProtocol => "MediaProtocol"@,
            MediaPathSubType::PWIGFirmware => "PWIGFirmware"@,
            MediaPathSubType::PWIGFirmwareVolume => "PWIGFirmwareVolume"@,
            MediaPathSubType::RelativeOffsetRange => "RelativeOffsetRange"@,
            MediaPathSubType::RAMDisk => "RAMDisk"@,
        }
    }

    pub fn name(self) -> (r: String)
        ensures
            r@ == self.name_spec(),
    {
        match self {
            MediaPathSubType::HardDrive => String::from_str("HardDrive"),
            MediaPathSubType::CDROM => String::from_str("CDROM"),
            MediaPathSubType::Vendor => String::from_str("Vendor"),
            MediaPathSubType::File => String::from_str("File"),
            MediaPathSubType::MediaProtocol => String::from_str("MediaProtocol"),
            MediaPathSubType::PWIGFirmware => String::from_str("PWIGFirmware"),
            MediaPathSubType::PWIGFirmwareVolume => String::from_str("PWIGFirmwareVolume"),
            MediaPathSubType::RelativeOffsetRange => String::from_str("RelativeOffsetRange"),
            MediaPathSubType::RAMDisk => String::from_str("RAMDisk"),
        }
    }
}

/// Sub-types of a `BIOSBootSpec` node.
#[derive(Debug, Clone, Copy, PartialEq, Eq, Structural)]
pub enum BIOSBootSpecPathSubType {
    V1_01,
}

impl BIOSBootSpecPathSubType {
    /// The byte code of this variant.
    pub open spec fn as_byte(self) -> u8 {
        match self {
            BIOSBootSpecPathSubType::V1_01 => 1,
        }
    }

    pub fn to_u8(self) -> (r: u8)
        ensures
            r == self.as_byte(),
    {
        match self {
            BIOSBootSpecPathSubType::V1_01 => 1,
        }
    }

    /// The variant whose code is `b`, if there is one.
    pub open spec fn from_byte(b: u8) -> Option<BIOSBootSpecPathSubType> {
        if b == 1 {
            Some(BIOSBootSpecPathSubType::V1_01)
        } else {
            None
        }
    }

    pub fn from_u8(b: u8) -> (r: Option<BIOSBootSpecPathSubType>)
        ensures
            r == BIOSBootSpecPathSubType::from_byte(b),
    {
        if b == 1 {
            Some(BIOSBootSpecPathSubType::V1_01)
        } else {
            None
        }
    }

    /// The variant's name, as it is shown by the diagnostic decoder.
    pub open spec fn name_spec(self) -> Seq<char> {
        match self {
            BIOSBootSpecPathSubType::V1_01 => "V1_01"@,
        }
    }

    pub fn name(self) -> (r: String)
        ensures
            r@ == self.name_spec(),
    {
        match self {
            BIOSBootSpecPathSubType::V1_01 => String::from_str("V1_01"),
        }
    }
}

/// Interface hardware types (RFC 1700), carried inside a MAC payload.
#[derive(Debug, Clone, Copy, PartialEq, Eq, Structural)]
pub enum HardwareType {
    Ethernet,
    ExperimentalEthernet,
    AmateurRadioAX25,
    ProteonProNetTokenRing,
    Chaos,
    IEEE802,
    ARCNET,
    Hyperchannel,
    Lanstar,
}

impl HardwareType {
    /// The byte code of this variant.
    pub open spec fn as_byte(self) -> u8 {
        match self {
            HardwareType::Ethernet => 1,
            HardwareType::ExperimentalEthernet => 2,
            HardwareType::AmateurRadioAX25 => 3,
            HardwareType::ProteonProNetTokenRing => 4,
            HardwareType::Chaos => 5,
            HardwareType::IEEE802 => 6,
            HardwareType::ARCNET => 7,
            HardwareType::Hyperchannel => 8,
            HardwareType::Lanstar => 9,
        }
    }

    pub fn to_u8(self) -> (r: u8)
        ensures
            r == self.as_byte(),
    {
        match self {
            HardwareType::Ethernet => 1,
            HardwareType::ExperimentalEthernet => 2,
            HardwareType::AmateurRadioAX25 => 3,
            HardwareType::ProteonProNetTokenRing => 4,
            HardwareType::Chaos => 5,
            HardwareType::IEEE802 => 6,
            HardwareType::ARCNET => 7,
            HardwareType::Hyperchannel => 8,
            HardwareType::Lanstar => 9,
        }
    }

    /// The variant whose code is `b`, if there is one.
    pub open spec fn from_byte(b: u8) -> Option<HardwareType> {
        if b == 1 {
            Some(HardwareType::Ethernet)
        } else if b == 2 {
            Some(HardwareType::ExperimentalEthernet)
        } else if b == 3 {
            Some(HardwareType::AmateurRadioAX25)
        } else if b == 4 {
            Some(HardwareType::ProteonProNetTokenRing)
        } else if b == 5 {
            Some(HardwareType::Chaos)
        } else if b == 6 {
            Some(HardwareType::IEEE802)
        } else if b == 7 {
            Some(HardwareType::ARCNET)
        } else if b == 8 {
            Some(HardwareType::Hyperchannel)
        } else if b == 9 {
            Some(HardwareType::Lanstar)
        } else {
            None
        }
    }

    pub fn from_u8(b: u8) -> (r: Option<HardwareType>)
        ensures
            r == HardwareType::from_byte(b),
    {
        if b == 1 {
            Some(HardwareType::Ethernet)
        } else if b == 2 {
            Some(HardwareType::ExperimentalEthernet)
        } else if b == 3 {
            Some(HardwareType::AmateurRadioAX25)
        } else if b == 4 {
            Some(HardwareType::ProteonProNetTokenRing)
        } else if b == 5 {
            Some(HardwareType::Chaos)
        } else if b == 6 {
            Some(HardwareType::IEEE802)
        } else if b == 7 {
            Some(HardwareType::ARCNET)
        } else if b == 8 {
            Some(HardwareType::Hyperchannel)
        } else if b == 9 {
            Some(HardwareType::Lanstar)
        } else {
            None
        }
    }
}

/// A variant's byte code names that variant and no other.
pub proof fn lemma_hardware_type_code_roundtrip(t: HardwareType)
    ensures
        HardwareType::from_byte(t.as_byte()) == Some(t),
{
    match t {
        HardwareType::Ethernet => assert(HardwareType::from_byte(1) == Some(HardwareType::Ethernet)),
        HardwareType::ExperimentalEthernet => assert(HardwareType::from_byte(2) == Some(HardwareType::ExperimentalEthernet)),
        HardwareType::AmateurRadioAX25 => assert(HardwareType::from_byte(3) == Some(HardwareType::AmateurRadioAX25)),
        HardwareType::ProteonProNetTokenRing => assert(HardwareType::from_byte(4) == Some(HardwareType::ProteonProNetTokenRing)),
        HardwareType::Chaos => assert(HardwareType::from_byte(5) == Some(HardwareType::Chaos)),
        HardwareType::IEEE802 => assert(HardwareType::from_byte(6) == Some(HardwareType::IEEE802)),
        HardwareType::ARCNET => assert(HardwareType::from_byte(7) == Some(HardwareType::ARCNET)),
        HardwareType::Hyperchannel => assert(HardwareType::from_byte(8) == Some(HardwareType::Hyperchannel)),
        HardwareType::Lanstar => assert(HardwareType::from_byte(9) == Some(HardwareType::Lanstar)),
    }
}

/// Whether an IPv4 payload's addresses were assigned statically or by DHCP.
#[derive(Debug, Clone, Copy, PartialEq, Eq, Structural)]
pub enum StaticIPAddr {
    DHCP,
    Static,
}

impl StaticIPAddr {
    /// The byte code of this variant.
    pub open spec fn as_byte(self) -> u8 {
        match self {
            StaticIPAddr::DHCP => 0,
            StaticIPAddr::Static => 1,
        }
    }

    pub fn to_u8(self) -> (r: u8)
        ensures
            r == self.as_byte(),
    {
        match self {
            StaticIPAddr::DHCP => 0,
            StaticIPAddr::Static => 1,
        }
    }

    /// The variant whose code is `b`, if there is one.
    pub open spec fn from_byte(b: u8) -> Option<StaticIPAddr> {
        if b == 0 {
            Some(StaticIPAddr::DHCP)
        } else if b == 1 {
            Some(StaticIPAddr::Static)
        } else {
            None
        }
    }

    pub fn from_u8(b: u8) -> (r: Option<StaticIPAddr>)
        ensures
            r == StaticIPAddr::from_byte(b),
    {
        if b == 0 {
            Some(StaticIPAddr::DHCP)
        } else if b == 1 {
            Some(StaticIPAddr::Static)
        } else {
            None
        }
    }
}

/// A variant's byte code names that variant and no other.
pub proof fn lemma_static_ip_addr_code_roundtrip(t: StaticIPAddr)
    ensures
        StaticIPAddr::from_byte(t.as_byte()) == Some(t),
{
    match t {
        StaticIPAddr::DHCP => assert(StaticIPAddr::from_byte(0) == Some(StaticIPAddr::DHCP)),
        StaticIPAddr::Static => assert(StaticIPAddr::from_byte(1) == Some(StaticIPAddr::Static)),
    }
}

/// IP protocol numbers, carried inside an IPv4 payload.
#[derive(Debug, Clone, Copy, PartialEq, Eq, Structural)]
#[allow(non_camel_case_types)]
pub enum IPProtocol {
    HOPOPT,
    ICMP,
    IGMP,
    GGP,
    IPv4,
    ST,
    TCP,
    CBT,
    EGP,
    IGP,
    BBN_RCC_MON,
    NVP_II,
    PUP,
    ARGUS,
    EMCON,
    XNET,
    CHAOS,
    UDP,
    MUX,
    DCN_MEAS,
    HMP,
    PRM,
    XNS_IDP,
    TRUNK_1,
    TRUNK_2,
    LEAF_1,
    LEAF_2,
    RDP,
    IRTP,
    ISO_TP4,
    NETBLT,
    MFE_NSP,
    MERIT_INP,
    DCCP,
    _3PC,
    IDPR,
    XTP,
    DDP,
    IDPR_CMTP,
    TPPP,
    IL,
    IPv6,
    SDRP,
    IPv6_Route,
    IPv6_Frag,
    IDRP,
    RSVP,
    GRE,
    DSR,
    BNA,
    ESP,
    AH,
    I_NLSP,
    SWIPE,
    NARP,
    MOBILE,
    TLSP,
    SKIP,
    IPv6_ICMP,
    IPv6_NoNxt,
    IPv6_Opts,
    ANYHOST,
    CFTP,
    ANYLOCAL,
    SAT_EXPAK,
    KRYPTOLAN,
    RVD,
    IPPC,
    ANYDFS,
    SAT_MON,
    VISA,
    IPCV,
    CPNX,
    CPHB,
    WSN,
    PVP,
    BR_SAT_MON,
    SUN_ND,
    WB_MON,
    WB_EXPAK,
    ISO_IP,
    VMTP,
    SECURE_VMTP,
    VINES,
    TTP_IPTM,
    NSFNET_IGP,
    DGP,
    TCF,
    EIGRP,
    OSPFIGP,
    Sprite_RPC,
    LARP,
    MTP,
    AX25,
    IPIP,
    MICP,
    SCC_SP,
    ETHERIP,
    ENCAP,
    ANYPE,
    GMTP,
    IFMP,
    PNNI,
    PIM,
    ARIS,
    SCPS,
    QNX,
    A_N,
    IPComp,
    SNP,
    Compaq_Peer,
    IPX_in_IP,
    VRRP,
    PGM,
    ANYZH,
    L2TP,
    DDX,
    IATP,
    STP,
    SRP,
    UTI,
    SMP,
    SM,
    PTP,
    ISIS_over_IPv4,
    FIRE,
    CRTP,
    CRUDP,
    SSCOPMCE,
    IPLT,
    SPS,
    PIPE,
    SCTP,
    FC,
    RSVP_E2E_IGNORE,
    Mobility_Header,
    UDPLite,
    MPLS_in_IP,
    manet,
    HIP,
    Shim6,
    WESP,
    ROHC,
    Ethernet,
    EXP0,
    EXP2,
    Reserved,
}

impl IPProtocol {
    /// The byte code of this variant.
    pub open spec fn as_byte(self) -> u8 {
        match self {
            IPProtocol::HOPOPT => 0,
            IPProtocol::ICMP => 1,
            IPProtocol::IGMP => 2,
            IPProtocol::GGP => 3,
            IPProtocol::IPv4 => 4,
            IPProtocol::ST => 5,
            IPProtocol::TCP => 6,
            IPProtocol::CBT => 7,
            IPProtocol::EGP => 8,
            IPProtocol::IGP => 9,
            IPProtocol::BBN_RCC_MON => 10,
            IPProtocol::NVP_II => 11,
            IPProtocol::PUP => 12,
            IPProtocol::ARGUS => 13,
            IPProtocol::EMCON => 14,
            IPProtocol::XNET => 15,
            IPProtocol::CHAOS => 16,
            IPProtocol::UDP => 17,
            IPProtocol::MUX => 18,
            IPProtocol::DCN_MEAS => 19,
            IPProtocol::HMP => 20,
            IPProtocol::PRM => 21,
            IPProtocol::XNS_IDP => 22,
            IPProtocol::TRUNK_1 => 23,
            IPProtocol::TRUNK_2 => 24,
            IPProtocol::LEAF_1 => 25,
            IPProtocol::LEAF_2 => 26,
            IPProtocol::RDP => 27,
            IPProtocol::IRTP => 28,
            IPProtocol::ISO_TP4 => 29,
            IPProtocol::NETBLT => 30,
            IPProtocol::MFE_NSP => 31,
            IPProtocol::MERIT_INP => 32,
            IPProtocol::DCCP => 33,
            IPProtocol::_3PC => 34,
            IPProtocol::IDPR => 35,
            IPProtocol::XTP => 36,
            IPProtocol::DDP => 37,
            IPProtocol::IDPR_CMTP => 38,
            IPProtocol::TPPP => 39,
            IPProtocol::IL => 40,
            IPProtocol::IPv6 => 41,
            IPProtocol::SDRP => 42,
            IPProtocol::IPv6_Route => 43,
            IPProtocol::IPv6_Frag => 44,
            IPProtocol::IDRP => 45,
            IPProtocol::RSVP => 46,
            IPProtocol::GRE => 47,
            IPProtocol::DSR => 48,
            IPProtocol::BNA => 49,
            IPProtocol::ESP => 50,
            IPProtocol::AH => 51,
            IPProtocol::I_NLSP => 52,
            IPProtocol::SWIPE => 53,
            IPProtocol::NARP => 54,
            IPProtocol::MOBILE => 55,
            IPProtocol::TLSP => 56,
            IPProtocol::SKIP => 57,
            IPProtocol::IPv6_ICMP => 58,
            IPProtocol::IPv6_NoNxt => 59,
            IPProtocol::IPv6_Opts => 60,
            IPProtocol::ANYHOST => 61,
            IPProtocol::CFTP => 62,
            IPProtocol::ANYLOCAL => 63,
            IPProtocol::SAT_EXPAK => 64,
            IPProtocol::KRYPTOLAN => 65,
            IPProtocol::RVD => 66,
            IPProtocol::IPPC => 67,
            IPProtocol::ANYDFS => 68,
            IPProtocol::SAT_MON => 69,
            IPProtocol::VISA => 70,
            IPProtocol::IPCV => 71,
            IPProtocol::CPNX => 72,
            IPProtocol::CPHB => 73,
            IPProtocol::WSN => 74,
            IPProtocol::PVP => 75,
            IPProtocol::BR_SAT_MON => 76,
            IPProtocol::SUN_ND => 77,
            IPProtocol::WB_MON => 78,
            IPProtocol::WB_EXPAK => 79,
            IPProtocol::ISO_IP => 80,
            IPProtocol::VMTP => 81,
            IPProtocol::SECURE_VMTP => 82,
            IPProtocol::VINES => 83,
            IPProtocol::TTP_IPTM => 84,
            IPProtocol::NSFNET_IGP => 85,
            IPProtocol::DGP => 86,
            IPProtocol::TCF => 87,
            IPProtocol::EIGRP => 88,
            IPProtocol::OSPFIGP => 89,
            IPProtocol::Sprite_RPC => 90,
            IPProtocol::LARP => 91,
            IPProtocol::MTP => 92,
            IPProtocol::AX25 => 93,
            IPProtocol::IPIP => 94,
            IPProtocol::MICP => 95,
            IPProtocol::SCC_SP => 96,
            IPProtocol::ETHERIP => 97,
            IPProtocol::ENCAP => 98,
            IPProtocol::ANYPE => 99,
            IPProtocol::GMTP => 100,
            IPProtocol::IFMP => 101,
            IPProtocol::PNNI => 102,
            IPProtocol::PIM => 103,
            IPProtocol::ARIS => 104,
            IPProtocol::SCPS => 105,
            IPProtocol::QNX => 106,
            IPProtocol::A_N => 107,
            IPProtocol::IPComp => 108,
            IPProtocol::SNP => 109,
            IPProtocol::Compaq_Peer => 110,
            IPProtocol::IPX_in_IP => 111,
            IPProtocol::VRRP => 112,
            IPProtocol::PGM => 113,
            IPProtocol::ANYZH => 114,
            IPProtocol::L2TP => 115,
            IPProtocol::DDX => 116,
            IPProtocol::IATP => 117,
            IPProtocol::STP => 118,
            IPProtocol::SRP => 119,
            IPProtocol::UTI => 120,
            IPProtocol::SMP => 121,
            IPProtocol::SM => 122,
            IPProtocol::PTP => 123,
            IPProtocol::ISIS_over_IPv4 => 124,
            IPProtocol::FIRE => 125,
            IPProtocol::CRTP => 126,
            IPProtocol::CRUDP => 127,
            IPProtocol::SSCOPMCE => 128,
            IPProtocol::IPLT => 129,
            IPProtocol::SPS => 130,
            IPProtocol::PIPE => 131,
            IPProtocol::SCTP => 132,
            IPProtocol::FC => 133,
            IPProtocol::RSVP_E2E_IGNORE => 134,
            IPProtocol::Mobility_Header => 135,
            IPProtocol::UDPLite => 136,
            IPProtocol::MPLS_in_IP => 137,
            IPProtocol::manet => 138,
            IPProtocol::HIP => 139,
            IPProtocol::Shim6 => 140,
            IPProtocol::WESP => 141,
            IPProtocol::ROHC => 142,
            IPProtocol::Ethernet => 143,
            IPProtocol::EXP0 => 253,
            IPProtocol::EXP2 => 254,
            IPProtocol::Reserved => 255,
        }
    }

    pub fn to_u8(self) -> (r: u8)
        ensures
            r == self.as_byte(),
    {
        match self {
            IPProtocol::HOPOPT => 0,
            IPProtocol::ICMP => 1,
            IPProtocol::IGMP => 2,
            IPProtocol::GGP => 3,
            IPProtocol::IPv4 => 4,
            IPProtocol::ST => 5,
            IPProtocol::TCP => 6,
            IPProtocol::CBT => 7,
            IPProtocol::EGP => 8,
            IPProtocol::IGP => 9,
            IPProtocol::BBN_RCC_MON => 10,
            IPProtocol::NVP_II => 11,
            IPProtocol::PUP => 12,
            IPProtocol::ARGUS => 13,
            IPProtocol::EMCON => 14,
            IPProtocol::XNET => 15,
            IPProtocol::CHAOS => 16,
            IPProtocol::UDP => 17,
            IPProtocol::MUX => 18,
            IPProtocol::DCN_MEAS => 19,
            IPProtocol::HMP => 20,
            IPProtocol::PRM => 21,
            IPProtocol::XNS_IDP => 22,
            IPProtocol::TRUNK_1 => 23,
            IPProtocol::TRUNK_2 => 24,
            IPProtocol::LEAF_1 => 25,
            IPProtocol::LEAF_2 => 26,
            IPProtocol::RDP => 27,
            IPProtocol::IRTP => 28,
            IPProtocol::ISO_TP4 => 29,
            IPProtocol::NETBLT => 30,
            IPProtocol::MFE_NSP => 31,
            IPProtocol::MERIT_INP => 32,
            IPProtocol::DCCP => 33,
            IPProtocol::_3PC => 34,
            IPProtocol::IDPR => 35,
            IPProtocol::XTP => 36,
            IPProtocol::DDP => 37,
            IPProtocol::IDPR_CMTP => 38,
            IPProtocol::TPPP => 39,
            IPProtocol::IL => 40,
            IPProtocol::IPv6 => 41,
            IPProtocol::SDRP => 42,
            IPProtocol::IPv6_Route => 43,
            IPProtocol::IPv6_Frag => 44,
            IPProtocol::IDRP => 45,
            IPProtocol::RSVP => 46,
            IPProtocol::GRE => 47,
            IPProtocol::DSR => 48,
            IPProtocol::BNA => 49,
            IPProtocol::ESP => 50,
            IPProtocol::AH => 51,
            IPProtocol::I_NLSP => 52,
            IPProtocol::SWIPE => 53,
            IPProtocol::NARP => 54,
            IPProtocol::MOBILE => 55,
            IPProtocol::TLSP => 56,
            IPProtocol::SKIP => 57,
            IPProtocol::IPv6_ICMP => 58,
            IPProtocol::IPv6_NoNxt => 59,
            IPProtocol::IPv6_Opts => 60,
            IPProtocol::ANYHOST => 61,
            IPProtocol::CFTP => 62,
            IPProtocol::ANYLOCAL => 63,
            IPProtocol::SAT_EXPAK => 64,
            IPProtocol::KRYPTOLAN => 65,
            IPProtocol::RVD => 66,
            IPProtocol::IPPC => 67,
            IPProtocol::ANYDFS => 68,
            IPProtocol::SAT_MON => 69,
            IPProtocol::VISA => 70,
            IPProtocol::IPCV => 71,
            IPProtocol::CPNX => 72,
            IPProtocol::CPHB => 73,
            IPProtocol::WSN => 74,
            IPProtocol::PVP => 75,
            IPProtocol::BR_SAT_MON => 76,
            IPProtocol::SUN_ND => 77,
            IPProtocol::WB_MON => 78,
            IPProtocol::WB_EXPAK => 79,
            IPProtocol::ISO_IP => 80,
            IPProtocol::VMTP => 81,
            IPProtocol::SECURE_VMTP => 82,
            IPProtocol::VINES => 83,
            IPProtocol::TTP_IPTM => 84,
            IPProtocol::NSFNET_IGP => 85,
            IPProtocol::DGP => 86,
            IPProtocol::TCF => 87,
            IPProtocol::EIGRP => 88,
            IPProtocol::OSPFIGP => 89,
            IPProtocol::Sprite_RPC => 90,
            IPProtocol::LARP => 91,
            IPProtocol::MTP => 92,
            IPProtocol::AX25 => 93,
            IPProtocol::IPIP => 94,
            IPProtocol::MICP => 95,
            IPProtocol::SCC_SP => 96,
            IPProtocol::ETHERIP => 97,
            IPProtocol::ENCAP => 98,
            IPProtocol::ANYPE => 99,
            IPProtocol::GMTP => 100,
            IPProtocol::IFMP => 101,
            IPProtocol::PNNI => 102,
            IPProtocol::PIM => 103,
            IPProtocol::ARIS => 104,
            IPProtocol::SCPS => 105,
            IPProtocol::QNX => 106,
            IPProtocol::A_N => 107,
            IPProtocol::IPComp => 108,
            IPProtocol::SNP => 109,
            IPProtocol::Compaq_Peer => 110,
            IPProtocol::IPX_in_IP => 111,
            IPProtocol::VRRP => 112,
            IPProtocol::PGM => 113,
            IPProtocol::ANYZH => 114,
            IPProtocol::L2TP => 115,
            IPProtocol::DDX => 116,
            IPProtocol::IATP => 117,
            IPProtocol::STP => 118,
            IPProtocol::SRP => 119,
            IPProtocol::UTI => 120,
            IPProtocol::SMP => 121,
            IPProtocol::SM => 122,
            IPProtocol::PTP => 123,
            IPProtocol::ISIS_over_IPv4 => 124,
            IPProtocol::FIRE => 125,
            IPProtocol::CRTP => 126,
            IPProtocol::CRUDP => 127,
            IPProtocol::SSCOPMCE => 128,
            IPProtocol::IPLT => 129,
            IPProtocol::SPS => 130,
            IPProtocol::PIPE => 131,
            IPProtocol::SCTP => 132,
            IPProtocol::FC => 133,
            IPProtocol::RSVP_E2E_IGNORE => 134,
            IPProtocol::Mobility_Header => 135,
            IPProtocol::UDPLite => 136,
            IPProtocol::MPLS_in_IP => 137,
            IPProtocol::manet => 138,
            IPProtocol::HIP => 139,
            IPProtocol::Shim6 => 140,
            IPProtocol::WESP => 141,
            IPProtocol::ROHC => 142,
            IPProtocol::Ethernet => 143,
            IPProtocol::EXP0 => 253,
            IPProtocol::EXP2 => 254,
            IPProtocol::Reserved => 255,
        }
    }

    /// The variant whose code is `b`, if there is one.
    pub open spec fn from_byte(b: u8) -> Option<IPProtocol> {
        if b == 0 {
            Some(IPProtocol::HOPOPT)
        } else if b == 1 {
            Some(IPProtocol::ICMP)
        } else if b == 2 {
            Some(IPProtocol::IGMP)
        } else if b == 3 {
            Some(IPProtocol::GGP)
        } else if b == 4 {
            Some(IPProtocol::IPv4)
        } else if b == 5 {
            Some(IPProtocol::ST)
        } else if b == 6 {
            Some(IPProtocol::TCP)
        } else if b == 7 {
            Some(IPProtocol::CBT)
        } else if b == 8 {
            Some(IPProtocol::EGP)
        } else if b == 9 {
            Some(IPProtocol::IGP)
        } else if b == 10 {
            Some(IPProtocol::BBN_RCC_MON)
        } else if b == 11 {
            Some(IPProtocol::NVP_II)
        } else if b == 12 {
            Some(IPProtocol::PUP)
        } else if b == 13 {
            Some(IPProtocol::ARGUS)
        } else if b == 14 {
            Some(IPProtocol::EMCON)
        } else if b == 15 {
            Some(IPProtocol::XNET)
        } else if b == 16 {
            Some(IPProtocol::CHAOS)
        } else if b == 17 {
            Some(IPProtocol::UDP)
        } else if b == 18 {
            Some(IPProtocol::MUX)
        } else if b == 19 {
            Some(IPProtocol::DCN_MEAS)
        } else if b == 20 {
            Some(IPProtocol::HMP)
        } else if b == 21 {
            Some(IPProtocol::PRM)
        } else if b == 22 {
            Some(IPProtocol::XNS_IDP)
        } else if b == 23 {
            Some(IPProtocol::TRUNK_1)
        } else if b == 24 {
            Some(IPProtocol::TRUNK_2)
        } else if b == 25 {
            Some(IPProtocol::LEAF_1)
        } else if b == 26 {
            Some(IPProtocol::LEAF_2)
        } else if b == 27 {
            Some(IPProtocol::RDP)
        } else if b == 28 {
            Some(IPProtocol::IRTP)
        } else if b == 29 {
            Some(IPProtocol::ISO_TP4)
        } else if b == 30 {
            Some(IPProtocol::NETBLT)
        } else if b == 31 {
            Some(IPProtocol::MFE_NSP)
        } else if b == 32 {
            Some(IPProtocol::MERIT_INP)
        } else if b == 33 {
            Some(IPProtocol::DCCP)
        } else if b == 34 {
            Some(IPProtocol::_3PC)
        } else if b == 35 {
            Some(IPProtocol::IDPR)
        } else if b == 36 {
            Some(IPProtocol::XTP)
        } else if b == 37 {
            Some(IPProtocol::DDP)
        } else if b == 38 {
            Some(IPProtocol::IDPR_CMTP)
        } else if b == 39 {
            Some(IPProtocol::TPPP)
        } else if b == 40 {
            Some(IPProtocol::IL)
        } else if b == 41 {
            Some(IPProtocol::IPv6)
        } else if b == 42 {
            Some(IPProtocol::SDRP)
        } else if b == 43 {
            Some(IPProtocol::IPv6_Route)
        } else if b == 44 {
            Some(IPProtocol::IPv6_Frag)
        } else if b == 45 {
            Some(IPProtocol::IDRP)
        } else if b == 46 {
            Some(IPProtocol::RSVP)
        } else if b == 47 {
            Some(IPProtocol::GRE)
        } else if b == 48 {
            Some(IPProtocol::DSR)
        } else if b == 49 {
            Some(IPProtocol::BNA)
        } else if b == 50 {
            Some(IPProtocol::ESP)
        } else if b == 51 {
            Some(IPProtocol::AH)
        } else if b == 52 {
            Some(IPProtocol::I_NLSP)
        } else if b == 53 {
            Some(IPProtocol::SWIPE)
        } else if b == 54 {
            Some(IPProtocol::NARP)
        } else if b == 55 {
            Some(IPProtocol::MOBILE)
        } else if b == 56 {
            Some(IPProtocol::TLSP)
        } else if b == 57 {
            Some(IPProtocol::SKIP)
        } else if b == 58 {
            Some(IPProtocol::IPv6_ICMP)
        } else if b == 59 {
            Some(IPProtocol::IPv6_NoNxt)
        } else if b == 60 {
            Some(IPProtocol::IPv6_Opts)
        } else if b == 61 {
            Some(IPProtocol::ANYHOST)
        } else if b == 62 {
            Some(IPProtocol::CFTP)
        } else if b == 63 {
            Some(IPProtocol::ANYLOCAL)
        } else if b == 64 {
            Some(IPProtocol::SAT_EXPAK)
        } else if b == 65 {
            Some(IPProtocol::KRYPTOLAN)
        } else if b == 66 {
            Some(IPProtocol::RVD)
        } else if b == 67 {
            Some(IPProtocol::IPPC)
        } else if b == 68 {
            Some(IPProtocol::ANYDFS)
        } else if b == 69 {
            Some(IPProtocol::SAT_MON)
        } else if b == 70 {
            Some(IPProtocol::VISA)
        } else if b == 71 {
            Some(IPProtocol::IPCV)
        } else if b == 72 {
            Some(IPProtocol::CPNX)
        } else if b == 73 {
            Some(IPProtocol::CPHB)
        } else if b == 74 {
            Some(IPProtocol::WSN)
        } else if b == 75 {
            Some(IPProtocol::PVP)
        } else if b == 76 {
            Some(IPProtocol::BR_SAT_MON)
        } else if b == 77 {
            Some(IPProtocol::SUN_ND)
        } else if b == 78 {
            Some(IPProtocol::WB_MON)
        } else if b == 79 {
            Some(IPProtocol::WB_EXPAK)
        } else if b == 80 {
            Some(IPProtocol::ISO_IP)
        } else if b == 81 {
            Some(IPProtocol::VMTP)
        } else if b == 82 {
            Some(IPProtocol::SECURE_VMTP)
        } else if b == 83 {
            Some(IPProtocol::VINES)
        } else if b == 84 {
            Some(IPProtocol::TTP_IPTM)
        } else if b == 85 {
            Some(IPProtocol::NSFNET_IGP)
        } else if b == 86 {
            Some(IPProtocol::DGP)
        } else if b == 87 {
            Some(IPProtocol::TCF)
        } else if b == 88 {
            Some(IPProtocol::EIGRP)
        } else if b == 89 {
            Some(IPProtocol::OSPFIGP)
        } else if b == 90 {
            Some(IPProtocol::Sprite_RPC)
        } else if b == 91 {
            Some(IPProtocol::LARP)
        } else if b == 92 {
            Some(IPProtocol::MTP)
        } else if b == 93 {
            Some(IPProtocol::AX25)
        } else if b == 94 {
            Some(IPProtocol::IPIP)
        } else if b == 95 {
            Some(IPProtocol::MICP)
        } else if b == 96 {
            Some(IPProtocol::SCC_SP)
        } else if b == 97 {
            Some(IPProtocol::ETHERIP)
        } else if b == 98 {
            Some(IPProtocol::ENCAP)
        } else if b == 99 {
            Some(IPProtocol::ANYPE)
        } else if b == 100 {
            Some(IPProtocol::GMTP)
        } else if b == 101 {
            Some(IPProtocol::IFMP)
        } else if b == 102 {
            Some(IPProtocol::PNNI)
        } else if b == 103 {
            Some(IPProtocol::PIM)
        } else if b == 104 {
            Some(IPProtocol::ARIS)
        } else if b == 105 {
            Some(IPProtocol::SCPS)
        } else if b == 106 {
            Some(IPProtocol::QNX)
        } else if b == 107 {
            Some(IPProtocol::A_N)
        } else if b == 108 {
            Some(IPProtocol::IPComp)
        } else if b == 109 {
            Some(IPProtocol::SNP)
        } else if b == 110 {
            Some(IPProtocol::Compaq_Peer)
        } else if b == 111 {
            Some(IPProtocol::IPX_in_IP)
        } else if b == 112 {
            Some(IPProtocol::VRRP)
        } else if b == 113 {
            Some(IPProtocol::PGM)
        } else if b == 114 {
            Some(IPProtocol::ANYZH)
        } else if b == 115 {
            Some(IPProtocol::L2TP)
        } else if b == 116 {
            Some(IPProtocol::DDX)
        } else if b == 117 {
            Some(IPProtocol::IATP)
        } else if b == 118 {
            Some(IPProtocol::STP)
        } else if b == 119 {
            Some(IPProtocol::SRP)
        } else if b == 120 {
            Some(IPProtocol::UTI)
        } else if b == 121 {
            Some(IPProtocol::SMP)
        } else if b == 122 {
            Some(IPProtocol::SM)
        } else if b == 123 {
            Some(IPProtocol::PTP)
        } else if b == 124 {
            Some(IPProtocol::ISIS_over_IPv4)
        } else if b == 125 {
            Some(IPProtocol::FIRE)
        } else if b == 126 {
            Some(IPProtocol::CRTP)
        } else if b == 127 {
            Some(IPProtocol::CRUDP)
        } else if b == 128 {
            Some(IPProtocol::SSCOPMCE)
        } else if b == 129 {
            Some(IPProtocol::IPLT)
        } else if b == 130 {
            Some(IPProtocol::SPS)
        } else if b == 131 {
            Some(IPProtocol::PIPE)
        } else if b == 132 {
            Some(IPProtocol::SCTP)
        } else if b == 133 {
            Some(IPProtocol::FC)
        } else if b == 134 {
            Some(IPProtocol::RSVP_E2E_IGNORE)
        } else if b == 135 {
            Some(IPProtocol::Mobility_Header)
        } else if b == 136 {
            Some(IPProtocol::UDPLite)
        } else if b == 137 {
            Some(IPProtocol::MPLS_in_IP)
        } else if b == 138 {
            Some(IPProtocol::manet)
        } else if b == 139 {
            Some(IPProtocol::HIP)
        } else if b == 140 {
            Some(IPProtocol::Shim6)
        } else if b == 141 {
            Some(IPProtocol::WESP)
        } else if b == 142 {
            Some(IPProtocol::ROHC)
        } else if b == 143 {
            Some(IPProtocol::Ethernet)
        } else if b == 253 {
            Some(IPProtocol::EXP0)
        } else if b == 254 {
            Some(IPProtocol::EXP2)
        } else if b == 255 {
            Some(IPProtocol::Reserved)
        } else {
            None
        }
    }

    pub fn from_u8(b: u8) -> (r: Option<IPProtocol>)
        ensures
            r == IPProtocol::from_byte(b),
    {
        if b == 0 {
            Some(IPProtocol::HOPOPT)
        } else if b == 1 {
            Some(IPProtocol::ICMP)
        } else if b == 2 {
            Some(IPProtocol::IGMP)
        } else if b == 3 {
            Some(IPProtocol::GGP)
        } else if b == 4 {
            Some(IPProtocol::IPv4)
        } else if b == 5 {
            Some(IPProtocol::ST)
        } else if b == 6 {
            Some(IPProtocol::TCP)
        } else if b == 7 {
            Some(IPProtocol::CBT)
        } else if b == 8 {
            Some(IPProtocol::EGP)
        } else if b == 9 {
            Some(IPProtocol::IGP)
        } else if b == 10 {
            Some(IPProtocol::BBN_RCC_MON)
        } else if b == 11 {
            Some(IPProtocol::NVP_II)
        } else if b == 12 {
            Some(IPProtocol::PUP)
        } else if b == 13 {
            Some(IPProtocol::ARGUS)
        } else if b == 14 {
            Some(IPProtocol::EMCON)
        } else if b == 15 {
            Some(IPProtocol::XNET)
        } else if b == 16 {
            Some(IPProtocol::CHAOS)
        } else if b == 17 {
            Some(IPProtocol::UDP)
        } else if b == 18 {
            Some(IPProtocol::MUX)
        } else if b == 19 {
            Some(IPProtocol::DCN_MEAS)
        } else if b == 20 {
            Some(IPProtocol::HMP)
        } else if b == 21 {
            Some(IPProtocol::PRM)
        } else if b == 22 {
            Some(IPProtocol::XNS_IDP)
        } else if b == 23 {
            Some(IPProtocol::TRUNK_1)
        } else if b == 24 {
            Some(IPProtocol::TRUNK_2)
        } else if b == 25 {
            Some(IPProtocol::LEAF_1)
        } else if b == 26 {
            Some(IPProtocol::LEAF_2)
        } else if b == 27 {
            Some(IPProtocol::RDP)
        } else if b == 28 {
            Some(IPProtocol::IRTP)
        } else if b == 29 {
            Some(IPProtocol::ISO_TP4)
        } else if b == 30 {
            Some(IPProtocol::NETBLT)
        } else if b == 31 {
            Some(IPProtocol::MFE_NSP)
        } else if b == 32 {
            Some(IPProtocol::MERIT_INP)
        } else if b == 33 {
            Some(IPProtocol::DCCP)
        } else if b == 34 {
            Some(IPProtocol::_3PC)
        } else if b == 35 {
            Some(IPProtocol::IDPR)
        } else if b == 36 {
            Some(IPProtocol::XTP)
        } else if b == 37 {
            Some(IPProtocol::DDP)
        } else if b == 38 {
            Some(IPProtocol::IDPR_CMTP)
        } else if b == 39 {
            Some(IPProtocol::TPPP)
        } else if b == 40 {
            Some(IPProtocol::IL)
        } else if b == 41 {
            Some(IPProtocol::IPv6)
        } else if b == 42 {
            Some(IPProtocol::SDRP)
        } else if b == 43 {
            Some(IPProtocol::IPv6_Route)
        } else if b == 44 {
            Some(IPProtocol::IPv6_Frag)
        } else if b == 45 {
            Some(IPProtocol::IDRP)
        } else if b == 46 {
            Some(IPProtocol::RSVP)
        } else if b == 47 {
            Some(IPProtocol::GRE)
        } else if b == 48 {
            Some(IPProtocol::DSR)
        } else if b == 49 {
            Some(IPProtocol::BNA)
        } else if b == 50 {
            Some(IPProtocol::ESP)
        } else if b == 51 {
            Some(IPProtocol::AH)
        } else if b == 52 {
            Some(IPProtocol::I_NLSP)
        } else if b == 53 {
            Some(IPProtocol::SWIPE)
        } else if b == 54 {
            Some(IPProtocol::NARP)
        } else if b == 55 {
            Some(IPProtocol::MOBILE)
        } else if b == 56 {
            Some(IPProtocol::TLSP)
        } else if b == 57 {
            Some(IPProtocol::SKIP)
        } else if b == 58 {
            Some(IPProtocol::IPv6_ICMP)
        } else if b == 59 {
            Some(IPProtocol::IPv6_NoNxt)
        } else if b == 60 {
            Some(IPProtocol::IPv6_Opts)
        } else if b == 61 {
            Some(IPProtocol::ANYHOST)
        } else if b == 62 {
            Some(IPProtocol::CFTP)
        } else if b == 63 {
            Some(IPProtocol::ANYLOCAL)
        } else if b == 64 {
            Some(IPProtocol::SAT_EXPAK)
        } else if b == 65 {
            Some(IPProtocol::KRYPTOLAN)
        } else if b == 66 {
            Some(IPProtocol::RVD)
        } else if b == 67 {
            Some(IPProtocol::IPPC)
        } else if b == 68 {
            Some(IPProtocol::ANYDFS)
        } else if b == 69 {
            Some(IPProtocol::SAT_MON)
        } else if b == 70 {
            Some(IPProtocol::VISA)
        } else if b == 71 {
            Some(IPProtocol::IPCV)
        } else if b == 72 {
            Some(IPProtocol::CPNX)
        } else if b == 73 {
            Some(IPProtocol::CPHB)
        } else if b == 74 {
            Some(IPProtocol::WSN)
        } else if b == 75 {
            Some(IPProtocol::PVP)
        } else if b == 76 {
            Some(IPProtocol::BR_SAT_MON)
        } else if b == 77 {
            Some(IPProtocol::SUN_ND)
        } else if b == 78 {
            Some(IPProtocol::WB_MON)
        } else if b == 79 {
            Some(IPProtocol::WB_EXPAK)
        } else if b == 80 {
            Some(IPProtocol::ISO_IP)
        } else if b == 81 {
            Some(IPProtocol::VMTP)
        } else if b == 82 {
            Some(IPProtocol::SECURE_VMTP)
        } else if b == 83 {
            Some(IPProtocol::VINES)
        } else if b == 84 {
            Some(IPProtocol::TTP_IPTM)
        } else if b == 85 {
            Some(IPProtocol::NSFNET_IGP)
        } else if b == 86 {
            Some(IPProtocol::DGP)
        } else if b == 87 {
            Some(IPProtocol::TCF)
        } else if b == 88 {
            Some(IPProtocol::EIGRP)
        } else if b == 89 {
            Some(IPProtocol::OSPFIGP)
        } else if b == 90 {
            Some(IPProtocol::Sprite_RPC)
        } else if b == 91 {
            Some(IPProtocol::LARP)
        } else if b == 92 {
            Some(IPProtocol::MTP)
        } else if b == 93 {
            Some(IPProtocol::AX25)
        } else if b == 94 {
            Some(IPProtocol::IPIP)
        } else if b == 95 {
            Some(IPProtocol::MICP)
        } else if b == 96 {
            Some(IPProtocol::SCC_SP)
        } else if b == 97 {
            Some(IPProtocol::ETHERIP)
        } else if b == 98 {
            Some(IPProtocol::ENCAP)
        } else if b == 99 {
            Some(IPProtocol::ANYPE)
        } else if b == 100 {
            Some(IPProtocol::GMTP)
        } else if b == 101 {
            Some(IPProtocol::IFMP)
        } else if b == 102 {
            Some(IPProtocol::PNNI)
        } else if b == 103 {
            Some(IPProtocol::PIM)
        } else if b == 104 {
            Some(IPProtocol::ARIS)
        } else if b == 105 {
            Some(IPProtocol::SCPS)
        } else if b == 106 {
            Some(IPProtocol::QNX)
        } else if b == 107 {
            Some(IPProtocol::A_N)
        } else if b == 108 {
            Some(IPProtocol::IPComp)
        } else if b == 109 {
            Some(IPProtocol::SNP)
        } else if b == 110 {
            Some(IPProtocol::Compaq_Peer)
        } else if b == 111 {
            Some(IPProtocol::IPX_in_IP)
        } else if b == 112 {
            Some(IPProtocol::VRRP)
        } else if b == 113 {
            Some(IPProtocol::PGM)
        } else if b == 114 {
            Some(IPProtocol::ANYZH)
        } else if b == 115 {
            Some(IPProtocol::L2TP)
        } else if b == 116 {
            Some(IPProtocol::DDX)
        } else if b == 117 {
            Some(IPProtocol::IATP)
        } else if b == 118 {
            Some(IPProtocol::STP)
        } else if b == 119 {
            Some(IPProtocol::SRP)
        } else if b == 120 {
            Some(IPProtocol::UTI)
        } else if b == 121 {
            Some(IPProtocol::SMP)
        } else if b == 122 {
            Some(IPProtocol::SM)
        } else if b == 123 {
            Some(IPProtocol::PTP)
        } else if b == 124 {
            Some(IPProtocol::ISIS_over_IPv4)
        } else if b == 125 {
            Some(IPProtocol::FIRE)
        } else if b == 126 {
            Some(IPProtocol::CRTP)
        } else if b == 127 {
            Some(IPProtocol::CRUDP)
        } else if b == 128 {
            Some(IPProtocol::SSCOPMCE)
        } else if b == 129 {
            Some(IPProtocol::IPLT)
        } else if b == 130 {
            Some(IPProtocol::SPS)
        } else if b == 131 {
            Some(IPProtocol::PIPE)
        } else if b == 132 {
            Some(IPProtocol::SCTP)
        } else if b == 133 {
            Some(IPProtocol::FC)
        } else if b == 134 {
            Some(IPProtocol::RSVP_E2E_IGNORE)
        } else if b == 135 {
            Some(IPProtocol::Mobility_Header)
        } else if b == 136 {
            Some(IPProtocol::UDPLite)
        } else if b == 137 {
            Some(IPProtocol::MPLS_in_IP)
        } else if b == 138 {
            Some(IPProtocol::manet)
        } else if b == 139 {
            Some(IPProtocol::HIP)
        } else if b == 140 {
            Some(IPProtocol::Shim6)
        } else if b == 141 {
            Some(IPProtocol::WESP)
        } else if b == 142 {
            Some(IPProtocol::ROHC)
        } else if b == 143 {
            Some(IPProtocol::Ethernet)
        } else if b == 253 {
            Some(IPProtocol::EXP0)
        } else if b == 254 {
            Some(IPProtocol::EXP2)
        } else if b == 255 {
            Some(IPProtocol::Reserved)
        } else {
            None
        }
    }
}

/// A variant's byte code names that variant and no other.
pub proof fn lemma_ip_protocol_code_roundtrip(t: IPProtocol)
    ensures
        IPProtocol::from_byte(t.as_byte()) == Some(t),
{
    match t {
        IPProtocol::HOPOPT => assert(IPProtocol::from_byte(0) == Some(IPProtocol::HOPOPT)),
        IPProtocol::ICMP => assert(IPProtocol::from_byte(1) == Some(IPProtocol::ICMP)),
        IPProtocol::IGMP => assert(IPProtocol::from_byte(2) == Some(IPProtocol::IGMP)),
        IPProtocol::GGP => assert(IPProtocol::from_byte(3) == Some(IPProtocol::GGP)),
        IPProtocol::IPv4 => assert(IPProtocol::from_byte(4) == Some(IPProtocol::IPv4)),
        IPProtocol::ST => assert(IPProtocol::from_byte(5) == Some(IPProtocol::ST)),
        IPProtocol::TCP => assert(IPProtocol::from_byte(6) == Some(IPProtocol::TCP)),
        IPProtocol::CBT => assert(IPProtocol::from_byte(7) == Some(IPProtocol::CBT)),
        IPProtocol::EGP => assert(IPProtocol::from_byte(8) == Some(IPProtocol::EGP)),
        IPProtocol::IGP => assert(IPProtocol::from_byte(9) == Some(IPProtocol::IGP)),
        IPProtocol::BBN_RCC_MON => assert(IPProtocol::from_byte(10) == Some(IPProtocol::BBN_RCC_MON)),
        IPProtocol::NVP_II => assert(IPProtocol::from_byte(11) == Some(IPProtocol::NVP_II)),
        IPProtocol::PUP => assert(IPProtocol::from_byte(12) == Some(IPProtocol::PUP)),
        IPProtocol::ARGUS => assert(IPProtocol::from_byte(13) == Some(IPProtocol::ARGUS)),
        IPProtocol::EMCON => assert(IPProtocol::from_byte(14) == Some(IPProtocol::EMCON)),
        IPProtocol::XNET => assert(IPProtocol::from_byte(15) == Some(IPProtocol::XNET)),
        IPProtocol::CHAOS => assert(IPProtocol::from_byte(16) == Some(IPProtocol::CHAOS)),
        IPProtocol::UDP => assert(IPProtocol::from_byte(17) == Some(IPProtocol::UDP)),
        IPProtocol::MUX => assert(IPProtocol::from_byte(18) == Some(IPProtocol::MUX)),
        IPProtocol::DCN_MEAS => assert(IPProtocol::from_byte(19) == Some(IPProtocol::DCN_MEAS)),
        IPProtocol::HMP => assert(IPProtocol::from_byte(20) == Some(IPProtocol::HMP)),
        IPProtocol::PRM => assert(IPProtocol::from_byte(21) == Some(IPProtocol::PRM)),
        IPProtocol::XNS_IDP => assert(IPProtocol::from_byte(22) == Some(IPProtocol::XNS_IDP)),
        IPProtocol::TRUNK_1 => assert(IPProtocol::from_byte(23) == Some(IPProtocol::TRUNK_1)),
        IPProtocol::TRUNK_2 => assert(IPProtocol::from_byte(24) == Some(IPProtocol::TRUNK_2)),
        IPProtocol::LEAF_1 => assert(IPProtocol::from_byte(25) == Some(IPProtocol::LEAF_1)),
        IPProtocol::LEAF_2 => assert(IPProtocol::from_byte(26) == Some(IPProtocol::LEAF_2)),
        IPProtocol::RDP => assert(IPProtocol::from_byte(27) == Some(IPProtocol::RDP)),
        IPProtocol::IRTP => assert(IPProtocol::from_byte(28) == Some(IPProtocol::IRTP)),
        IPProtocol::ISO_TP4 => assert(IPProtocol::from_byte(29) == Some(IPProtocol::ISO_TP4)),
        IPProtocol::NETBLT => assert(IPProtocol::from_byte(30) == Some(IPProtocol::NETBLT)),
        IPProtocol::MFE_NSP => assert(IPProtocol::from_byte(31) == Some(IPProtocol::MFE_NSP)),
        IPProtocol::MERIT_INP => assert(IPProtocol::from_byte(32) == Some(IPProtocol::MERIT_INP)),
        IPProtocol::DCCP => assert(IPProtocol::from_byte(33) == Some(IPProtocol::DCCP)),
        IPProtocol::_3PC => assert(IPProtocol::from_byte(34) == Some(IPProtocol::_3PC)),
        IPProtocol::IDPR => assert(IPProtocol::from_byte(35) == Some(IPProtocol::IDPR)),
        IPProtocol::XTP => assert(IPProtocol::from_byte(36) == Some(IPProtocol::XTP)),
        IPProtocol::DDP => assert(IPProtocol::from_byte(37) == Some(IPProtocol::DDP)),
        IPProtocol::IDPR_CMTP => assert(IPProtocol::from_byte(38) == Some(IPProtocol::IDPR_CMTP)),
        IPProtocol::TPPP => assert(IPProtocol::from_byte(39) == Some(IPProtocol::TPPP)),
        IPProtocol::IL => assert(IPProtocol::from_byte(40) == Some(IPProtocol::IL)),
        IPProtocol::IPv6 => assert(IPProtocol::from_byte(41) == Some(IPProtocol::IPv6)),
        IPProtocol::SDRP => assert(IPProtocol::from_byte(42) == Some(IPProtocol::SDRP)),
        IPProtocol::IPv6_Route => assert(IPProtocol::from_byte(43) == Some(IPProtocol::IPv6_Route)),
        IPProtocol::IPv6_Frag => assert(IPProtocol::from_byte(44) == Some(IPProtocol::IPv6_Frag)),
        IPProtocol::IDRP => assert(IPProtocol::from_byte(45) == Some(IPProtocol::IDRP)),
        IPProtocol::RSVP => assert(IPProtocol::from_byte(46) == Some(IPProtocol::RSVP)),
        IPProtocol::GRE => assert(IPProtocol::from_byte(47) == Some(IPProtocol::GRE)),
        IPProtocol::DSR => assert(IPProtocol::from_byte(48) == Some(IPProtocol::DSR)),
        IPProtocol::BNA => assert(IPProtocol::from_byte(49) == Some(IPProtocol::BNA)),
        IPProtocol::ESP => assert(IPProtocol::from_byte(50) == Some(IPProtocol::ESP)),
        IPProtocol::AH => assert(IPProtocol::from_byte(51) == Some(IPProtocol::AH)),
        IPProtocol::I_NLSP => assert(IPProtocol::from_byte(52) == Some(IPProtocol::I_NLSP)),
        IPProtocol::SWIPE => assert(IPProtocol::from_byte(53) == Some(IPProtocol::SWIPE)),
        IPProtocol::NARP => assert(IPProtocol::from_byte(54) == Some(IPProtocol::NARP)),
        IPProtocol::MOBILE => assert(IPProtocol::from_byte(55) == Some(IPProtocol::MOBILE)),
        IPProtocol::TLSP => assert(IPProtocol::from_byte(56) == Some(IPProtocol::TLSP)),
        IPProtocol::SKIP => assert(IPProtocol::from_byte(57) == Some(IPProtocol::SKIP)),
        IPProtocol::IPv6_ICMP => assert(IPProtocol::from_byte(58) == Some(IPProtocol::IPv6_ICMP)),
        IPProtocol::IPv6_NoNxt => assert(IPProtocol::from_byte(59) == Some(IPProtocol::IPv6_NoNxt)),
        IPProtocol::IPv6_Opts => assert(IPProtocol::from_byte(60) == Some(IPProtocol::IPv6_Opts)),
        IPProtocol::ANYHOST => assert(IPProtocol::from_byte(61) == Some(IPProtocol::ANYHOST)),
        IPProtocol::CFTP => assert(IPProtocol::from_byte(62) == Some(IPProtocol::CFTP)),
        IPProtocol::ANYLOCAL => assert(IPProtocol::from_byte(63) == Some(IPProtocol::ANYLOCAL)),
        IPProtocol::SAT_EXPAK => assert(IPProtocol::from_byte(64) == Some(IPProtocol::SAT_EXPAK)),
        IPProtocol::KRYPTOLAN => assert(IPProtocol::from_byte(65) == Some(IPProtocol::KRYPTOLAN)),
        IPProtocol::RVD => assert(IPProtocol::from_byte(66) == Some(IPProtocol::RVD)),
        IPProtocol::IPPC => assert(IPProtocol::from_byte(67) == Some(IPProtocol::IPPC)),
        IPProtocol::ANYDFS => assert(IPProtocol::from_byte(68) == Some(IPProtocol::ANYDFS)),
        IPProtocol::SAT_MON => assert(IPProtocol::from_byte(69) == Some(IPProtocol::SAT_MON)),
        IPProtocol::VISA => assert(IPProtocol::from_byte(70) == Some(IPProtocol::VISA)),
        IPProtocol::IPCV => assert(IPProtocol::from_byte(71) == Some(IPProtocol::IPCV)),
        IPProtocol::CPNX => assert(IPProtocol::from_byte(72) == Some(IPProtocol::CPNX)),
        IPProtocol::CPHB => assert(IPProtocol::from_byte(73) == Some(IPProtocol::CPHB)),
        IPProtocol::WSN => assert(IPProtocol::from_byte(74) == Some(IPProtocol::WSN)),
        IPProtocol::PVP => assert(IPProtocol::from_byte(75) == Some(IPProtocol::PVP)),
        IPProtocol::BR_SAT_MON => assert(IPProtocol::from_byte(76) == Some(IPProtocol::BR_SAT_MON)),
        IPProtocol::SUN_ND => assert(IPProtocol::from_byte(77) == Some(IPProtocol::SUN_ND)),
        IPProtocol::WB_MON => assert(IPProtocol::from_byte(78) == Some(IPProtocol::WB_MON)),
        IPProtocol::WB_EXPAK => assert(IPProtocol::from_byte(79) == Some(IPProtocol::WB_EXPAK)),
        IPProtocol::ISO_IP => assert(IPProtocol::from_byte(80) == Some(IPProtocol::ISO_IP)),
        IPProtocol::VMTP => assert(IPProtocol::from_byte(81) == Some(IPProtocol::VMTP)),
        IPProtocol::SECURE_VMTP => assert(IPProtocol::from_byte(82) == Some(IPProtocol::SECURE_VMTP)),
        IPProtocol::VINES => assert(IPProtocol::from_byte(83) == Some(IPProtocol::VINES)),
        IPProtocol::TTP_IPTM => assert(IPProtocol::from_byte(84) == Some(IPProtocol::TTP_IPTM)),
        IPProtocol::NSFNET_IGP => assert(IPProtocol::from_byte(85) == Some(IPProtocol::NSFNET_IGP)),
        IPProtocol::DGP => assert(IPProtocol::from_byte(86) == Some(IPProtocol::DGP)),
        IPProtocol::TCF => assert(IPProtocol::from_byte(87) == Some(IPProtocol::TCF)),
        IPProtocol::EIGRP => assert(IPProtocol::from_byte(88) == Some(IPProtocol::EIGRP)),
        IPProtocol::OSPFIGP => assert(IPProtocol::from_byte(89) == Some(IPProtocol::OSPFIGP)),
        IPProtocol::Sprite_RPC => assert(IPProtocol::from_byte(90) == Some(IPProtocol::Sprite_RPC)),
        IPProtocol::LARP => assert(IPProtocol::from_byte(91) == Some(IPProtocol::LARP)),
        IPProtocol::MTP => assert(IPProtocol::from_byte(92) == Some(IPProtocol::MTP)),
        IPProtocol::AX25 => assert(IPProtocol::from_byte(93) == Some(IPProtocol::AX25)),
        IPProtocol::IPIP => assert(IPProtocol::from_byte(94) == Some(IPProtocol::IPIP)),
        IPProtocol::MICP => assert(IPProtocol::from_byte(95) == Some(IPProtocol::MICP)),
        IPProtocol::SCC_SP => assert(IPProtocol::from_byte(96) == Some(IPProtocol::SCC_SP)),
        IPProtocol::ETHERIP => assert(IPProtocol::from_byte(97) == Some(IPProtocol::ETHERIP)),
        IPProtocol::ENCAP => assert(IPProtocol::from_byte(98) == Some(IPProtocol::ENCAP)),
        IPProtocol::ANYPE => assert(IPProtocol::from_byte(99) == Some(IPProtocol::ANYPE)),
        IPProtocol::GMTP => assert(IPProtocol::from_byte(100) == Some(IPProtocol::GMTP)),
        IPProtocol::IFMP => assert(IPProtocol::from_byte(101) == Some(IPProtocol::IFMP)),
        IPProtocol::PNNI => assert(IPProtocol::from_byte(102) == Some(IPProtocol::PNNI)),
        IPProtocol::PIM => assert(IPProtocol::from_byte(103) == Some(IPProtocol::PIM)),
        IPProtocol::ARIS => assert(IPProtocol::from_byte(104) == Some(IPProtocol::ARIS)),
        IPProtocol::SCPS => assert(IPProtocol::from_byte(105) == Some(IPProtocol::SCPS)),
        IPProtocol::QNX => assert(IPProtocol::from_byte(106) == Some(IPProtocol::QNX)),
        IPProtocol::A_N => assert(IPProtocol::from_byte(107) == Some(IPProtocol::A_N)),
        IPProtocol::IPComp => assert(IPProtocol::from_byte(108) == Some(IPProtocol::IPComp)),
        IPProtocol::SNP => assert(IPProtocol::from_byte(109) == Some(IPProtocol::SNP)),
        IPProtocol::Compaq_Peer => assert(IPProtocol::from_byte(110) == Some(IPProtocol::Compaq_Peer)),
        IPProtocol::IPX_in_IP => assert(IPProtocol::from_byte(111) == Some(IPProtocol::IPX_in_IP)),
        IPProtocol::VRRP => assert(IPProtocol::from_byte(112) == Some(IPProtocol::VRRP)),
        IPProtocol::PGM => assert(IPProtocol::from_byte(113) == Some(IPProtocol::PGM)),
        IPProtocol::ANYZH => assert(IPProtocol::from_byte(114) == Some(IPProtocol::ANYZH)),
        IPProtocol::L2TP => assert(IPProtocol::from_byte(115) == Some(IPProtocol::L2TP)),
        IPProtocol::DDX => assert(IPProtocol::from_byte(116) == Some(IPProtocol::DDX)),
        IPProtocol::IATP => assert(IPProtocol::from_byte(117) == Some(IPProtocol::IATP)),
        IPProtocol::STP => assert(IPProtocol::from_byte(118) == Some(IPProtocol::STP)),
        IPProtocol::SRP => assert(IPProtocol::from_byte(119) == Some(IPProtocol::SRP)),
        IPProtocol::UTI => assert(IPProtocol::from_byte(120) == Some(IPProtocol::UTI)),
        IPProtocol::SMP => assert(IPProtocol::from_byte(121) == Some(IPProtocol::SMP)),
        IPProtocol::SM => assert(IPProtocol::from_byte(122) == Some(IPProtocol::SM)),
        IPProtocol::PTP => assert(IPProtocol::from_byte(123) == Some(IPProtocol::PTP)),
        IPProtocol::ISIS_over_IPv4 => assert(IPProtocol::from_byte(124) == Some(IPProtocol::ISIS_over_IPv4)),
        IPProtocol::FIRE => assert(IPProtocol::from_byte(125) == Some(IPProtocol::FIRE)),
        IPProtocol::CRTP => assert(IPProtocol::from_byte(126) == Some(IPProtocol::CRTP)),
        IPProtocol::CRUDP => assert(IPProtocol::from_byte(127) == Some(IPProtocol::CRUDP)),
        IPProtocol::SSCOPMCE => assert(IPProtocol::from_byte(128) == Some(IPProtocol::SSCOPMCE)),
        IPProtocol::IPLT => assert(IPProtocol::from_byte(129) == Some(IPProtocol::IPLT)),
        IPProtocol::SPS => assert(IPProtocol::from_byte(130) == Some(IPProtocol::SPS)),
        IPProtocol::PIPE => assert(IPProtocol::from_byte(131) == Some(IPProtocol::PIPE)),
        IPProtocol::SCTP => assert(IPProtocol::from_byte(132) == Some(IPProtocol::SCTP)),
        IPProtocol::FC => assert(IPProtocol::from_byte(133) == Some(IPProtocol::FC)),
        IPProtocol::RSVP_E2E_IGNORE => assert(IPProtocol::from_byte(134) == Some(IPProtocol::RSVP_E2E_IGNORE)),
        IPProtocol::Mobility_Header => assert(IPProtocol::from_byte(135) == Some(IPProtocol::Mobility_Header)),
        IPProtocol::UDPLite => assert(IPProtocol::from_byte(136) == Some(IPProtocol::UDPLite)),
        IPProtocol::MPLS_in_IP => assert(IPProtocol::from_byte(137) == Some(IPProtocol::MPLS_in_IP)),
        IPProtocol::manet => assert(IPProtocol::from_byte(138) == Some(IPProtocol::manet)),
        IPProtocol::HIP => assert(IPProtocol::from_byte(139) == Some(IPProtocol::HIP)),
        IPProtocol::Shim6 => assert(IPProtocol::from_byte(140) == Some(IPProtocol::Shim6)),
        IPProtocol::WESP => assert(IPProtocol::from_byte(141) == Some(IPProtocol::WESP)),
        IPProtocol::ROHC => assert(IPProtocol::from_byte(142) == Some(IPProtocol::ROHC)),
        IPProtocol::Ethernet => assert(IPProtocol::from_byte(143) == Some(IPProtocol::Ethernet)),
        IPProtocol::EXP0 => assert(IPProtocol::from_byte(253) == Some(IPProtocol::EXP0)),
        IPProtocol::EXP2 => assert(IPProtocol::from_byte(254) == Some(IPProtocol::EXP2)),
        IPProtocol::Reserved => assert(IPProtocol::from_byte(255) == Some(IPProtocol::Reserved)),
    }
}

} // verus!
