//! Typed payloads: encoding round trips, the tag-to-shape guard, and the
//! diagnostic renderings.

use device_path::build_single;
use device_path::describe;
use device_path::payload_as_acpi;
use device_path::payload_as_ipv4;
use device_path::payload_as_mac;
use device_path::payload_as_pci;
use device_path::payload_as_uri;
use device_path::ACPIDevicePath;
use device_path::DescribedData;
use device_path::DevicePath;
use device_path::DevicePathError;
use device_path::DevicePathPayload;
use device_path::IPv4DevicePath;
use device_path::MACDevicePath;
use device_path::PCIDevicePath;
use device_path::Payload;
use device_path::URIDevicePath;
use device_path::tags::DeviceType;
use device_path::tags::HardwareType;
use device_path::tags::IPProtocol;
use device_path::tags::MediaPathSubType;
use device_path::tags::MessagingPathSubType;
use device_path::tags::StaticIPAddr;

#[test]
fn pci_payload_roundtrip() {
    let p = PCIDevicePath { function: 2, device: 7 };
    let chain = DevicePath::new1(
        DevicePathPayload::create(DeviceType::Hardware, 1, p).unwrap(),
    );
    assert_eq!(payload_as_pci(chain.as_bytes(), 0), Ok(p));
}

#[test]
fn pci_accessor_rejects_other_tags() {
    let chain = DevicePath::new1(
        DevicePathPayload::create(DeviceType::ACPI, 1, ACPIDevicePath { hid: 1, uid: 2 }).unwrap(),
    );
    assert_eq!(
        payload_as_pci(chain.as_bytes(), 0),
        Err(DevicePathError::WrongShapeForTag)
    );
    // The ACPI accessor accepts the same node.
    assert_eq!(
        payload_as_acpi(chain.as_bytes(), 0),
        Ok(ACPIDevicePath { hid: 1, uid: 2 })
    );
}

#[test]
fn pci_accessor_rejects_wrong_length() {
    // A Hardware/PCI tag over a 3-byte payload does not fit the 2-byte
    // shape.
    let payload: Vec<u8> = vec![1, 2, 3];
    let chain = build_single(DeviceType::Hardware, 1, &payload).unwrap();
    assert_eq!(
        payload_as_pci(chain.as_bytes(), 0),
        Err(DevicePathError::WrongShapeForTag)
    );
}

#[test]
fn acpi_payload_roundtrip_and_rendering() {
    // "PNP" is P=16, N=14, P=16 in packed 5-bit letters; the number part
    // 0x0A03 renders in hexadecimal without leading zeroes.
    let hid: u32 = 16 + 14 * 32 + 16 * 1024 + 0x0A03 * 65536;
    let p = ACPIDevicePath { hid, uid: 26 };
    let chain = DevicePath::new1(
        DevicePathPayload::create(DeviceType::ACPI, 1, p).unwrap(),
    );
    assert_eq!(payload_as_acpi(chain.as_bytes(), 0), Ok(p));

    let d = describe(chain.as_bytes(), 0).unwrap();
    match d.data {
        DescribedData::Acpi { hid, uid } => {
            assert_eq!(hid, "PNPA03");
            assert_eq!(uid, "1A");
        }
        other => panic!("expected an ACPI rendering, got {:?}", other),
    }
}

#[test]
fn mac_payload_roundtrip() {
    let mut address = [0u8; 32];
    address[0] = 0xde;
    address[1] = 0xad;
    address[5] = 0x42;
    let p = MACDevicePath { address, iftype: HardwareType::IEEE802 };
    let chain = DevicePath::new1(
        DevicePathPayload::create(
            DeviceType::Messaging,
            MessagingPathSubType::MAC.to_u8(),
            p,
        )
        .unwrap(),
    );
    let got = payload_as_mac(chain.as_bytes(), 0).unwrap();
    assert_eq!(got.address, address);
    assert_eq!(got.iftype, HardwareType::IEEE802);

    let d = describe(chain.as_bytes(), 0).unwrap();
    match d.data {
        DescribedData::Mac { address, iftype } => {
            assert_eq!(address, "de:ad:00:00:00:42");
            assert_eq!(iftype, 6);
        }
        other => panic!("expected a MAC rendering, got {:?}", other),
    }
}

#[test]
fn mac_accessor_rejects_unknown_hardware_type() {
    // 33 payload bytes whose hardware-type code 99 is unknown.
    let mut payload: Vec<u8> = vec![0; 33];
    payload[32] = 99;
    let chain = build_single(DeviceType::Messaging, 11, &payload).unwrap();
    assert!(matches!(
        payload_as_mac(chain.as_bytes(), 0),
        Err(DevicePathError::WrongShapeForTag)
    ));
    // describe still shows the raw code.
    let d = describe(chain.as_bytes(), 0).unwrap();
    assert!(matches!(d.data, DescribedData::Mac { iftype: 99, .. }));
}

#[test]
fn ipv4_payload_roundtrip_and_rendering() {
    let p = IPv4DevicePath {
        local_ip: [192, 168, 0, 10],
        remote_ip: [10, 0, 0, 1],
        local_port: 49152,
        remote_port: 443,
        protocol: IPProtocol::TCP,
        static_ip: StaticIPAddr::DHCP,
        gateway_ip: [192, 168, 0, 1],
        subnet_mask: [255, 255, 255, 0],
    };
    let chain = DevicePath::new1(
        DevicePathPayload::create(
            DeviceType::Messaging,
            MessagingPathSubType::IPv4.to_u8(),
            p,
        )
        .unwrap(),
    );
    let got = payload_as_ipv4(chain.as_bytes(), 0).unwrap();
    assert_eq!(got.local_ip, [192, 168, 0, 10]);
    assert_eq!(got.remote_ip, [10, 0, 0, 1]);
    assert_eq!(got.local_port, 49152);
    assert_eq!(got.remote_port, 443);
    assert_eq!(got.protocol, IPProtocol::TCP);
    assert_eq!(got.static_ip, StaticIPAddr::DHCP);
    assert_eq!(got.gateway_ip, [192, 168, 0, 1]);
    assert_eq!(got.subnet_mask, [255, 255, 255, 0]);

    let d = describe(chain.as_bytes(), 0).unwrap();
    match d.data {
        DescribedData::Ipv4 {
            local_ip,
            remote_ip,
            local_port,
            remote_port,
            protocol,
            static_ip,
            gateway_ip,
            subnet_mask,
        } => {
            assert_eq!(local_ip, "192.168.0.10");
            assert_eq!(remote_ip, "10.0.0.1");
            assert_eq!(local_port, 49152);
            assert_eq!(remote_port, 443);
            assert_eq!(protocol, 6);
            assert_eq!(static_ip, 0);
            assert_eq!(gateway_ip, "192.168.0.1");
            assert_eq!(subnet_mask, "255.255.255.0");
        }
        other => panic!("expected an IPv4 rendering, got {:?}", other),
    }
}

#[test]
fn ipv4_accessor_rejects_unassigned_protocol() {
    // Protocol code 200 is unassigned.
    let mut payload: Vec<u8> = vec![0; 22];
    payload[12] = 200;
    let chain = build_single(DeviceType::Messaging, 12, &payload).unwrap();
    assert!(matches!(
        payload_as_ipv4(chain.as_bytes(), 0),
        Err(DevicePathError::WrongShapeForTag)
    ));
}

#[test]
fn uri_payload_roundtrip() {
    let p = URIDevicePath { uri: b"https://boot.example/image".to_vec() };
    let chain = DevicePath::new1(
        DevicePathPayload::create(
            DeviceType::Messaging,
            MessagingPathSubType::URI.to_u8(),
            p.clone(),
        )
        .unwrap(),
    );
    assert_eq!(payload_as_uri(chain.as_bytes(), 0), Ok(p));

    let d = describe(chain.as_bytes(), 0).unwrap();
    assert_eq!(d.sub_name.as_deref(), Some("URI"));
    match d.data {
        DescribedData::Uri { data } => {
            assert_eq!(data, b"https://boot.example/image".to_vec());
        }
        other => panic!("expected a URI rendering, got {:?}", other),
    }
}

#[test]
fn create_rejects_oversized_payload() {
    let p = URIDevicePath { uri: vec![b'a'; 65532] };
    assert!(matches!(
        DevicePathPayload::create(DeviceType::Messaging, 24, p),
        Err(DevicePathError::PayloadTooLarge)
    ));
}

#[test]
fn create_rejects_terminal_end_tags() {
    // The builder stamps the chain terminator itself: an End tag other
    // than the instance separator cannot stand as a node.
    assert!(matches!(
        DevicePathPayload::create(DeviceType::End, 0xff, ()),
        Err(DevicePathError::WrongShapeForTag)
    ));
    assert!(matches!(
        DevicePathPayload::create(DeviceType::End, 0x33, ()),
        Err(DevicePathError::WrongShapeForTag)
    ));
    assert!(DevicePathPayload::create(DeviceType::End, 0x01, ()).is_ok());
}

#[test]
fn payload_lengths() {
    assert_eq!(PCIDevicePath { function: 0, device: 0 }.len(), 2);
    assert_eq!(ACPIDevicePath { hid: 0, uid: 0 }.len(), 8);
    assert_eq!(
        MACDevicePath { address: [0; 32], iftype: HardwareType::Ethernet }.len(),
        33
    );
    let node = DevicePathPayload::create(
        DeviceType::Hardware,
        1,
        PCIDevicePath { function: 0, device: 0 },
    )
    .unwrap();
    assert_eq!(node.len(), 6);
}

#[test]
fn tag_codes_roundtrip() {
    assert_eq!(DeviceType::from_u8(0x7f), Some(DeviceType::End));
    assert_eq!(DeviceType::from_u8(0x06), None);
    assert_eq!(DeviceType::Media.to_u8(), 4);
    assert_eq!(IPProtocol::from_u8(6), Some(IPProtocol::TCP));
    assert_eq!(IPProtocol::from_u8(17), Some(IPProtocol::UDP));
    assert_eq!(IPProtocol::from_u8(200), None);
    assert_eq!(IPProtocol::Reserved.to_u8(), 255);
    assert_eq!(MediaPathSubType::from_u8(99), None);
    assert_eq!(MessagingPathSubType::URI.to_u8(), 24);
    assert_eq!(HardwareType::from_u8(1), Some(HardwareType::Ethernet));
    assert_eq!(StaticIPAddr::Static.to_u8(), 1);
}

#[test]
fn tag_names() {
    assert_eq!(DeviceType::BIOSBootSpec.name(), "BIOSBootSpec");
    assert_eq!(MessagingPathSubType::IPv4.name(), "IPv4");
    assert_eq!(MediaPathSubType::RAMDisk.name(), "RAMDisk");
}

#[test]
fn describe_fails_only_on_unreadable_nodes() {
    let buf: Vec<u8> = vec![1, 1];
    assert!(matches!(
        describe(&buf, 0),
        Err(DevicePathError::TruncatedHeader)
    ));
    let buf: Vec<u8> = vec![1, 1, 2, 0];
    assert!(matches!(
        describe(&buf, 0),
        Err(DevicePathError::InvalidLength)
    ));
    let buf: Vec<u8> = vec![1, 1, 9, 0];
    assert!(matches!(
        describe(&buf, 0),
        Err(DevicePathError::TruncatedHeader)
    ));
    // Unknown major type 0x30: described raw, numeric major name.
    let buf: Vec<u8> = vec![0x30, 5, 6, 0, 1, 2];
    let d = describe(&buf, 0).unwrap();
    assert_eq!(d.major_name, "48");
    assert_eq!(d.sub_name, None);
    assert!(matches!(d.data, DescribedData::Raw));
}
