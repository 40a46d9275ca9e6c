//! Building, walking, measuring and concatenating chains.

use device_path::build_many;
use device_path::build_single;
use device_path::chain_byte_length;
use device_path::describe;
use device_path::read_header;
use device_path::walk;
use device_path::ACPIDevicePath;
use device_path::DescribedData;
use device_path::DevicePath;
use device_path::DevicePathError;
use device_path::DevicePathPayload;
use device_path::MACDevicePath;
use device_path::PCIDevicePath;
use device_path::tags::DeviceType;
use device_path::tags::EndPathSubType;
use device_path::tags::HardwareType;
use device_path::tags::HardwarePathSubType;
use device_path::tags::MessagingPathSubType;

fn pci_node(function: u8, device: u8) -> DevicePathPayload {
    DevicePathPayload::create(
        DeviceType::Hardware,
        HardwarePathSubType::PCI.to_u8(),
        PCIDevicePath { function, device },
    )
    .unwrap()
}

fn acpi_node(hid: u32, uid: u32) -> DevicePathPayload {
    DevicePathPayload::create(DeviceType::ACPI, 1, ACPIDevicePath { hid, uid }).unwrap()
}

fn mac_node(first_six: [u8; 6]) -> DevicePathPayload {
    let mut address = [0u8; 32];
    address[..6].copy_from_slice(&first_six);
    DevicePathPayload::create(
        DeviceType::Messaging,
        MessagingPathSubType::MAC.to_u8(),
        MACDevicePath {
            address,
            iftype: HardwareType::Ethernet,
        },
    )
    .unwrap()
}

#[test]
fn pci_scenario() {
    // A PCI node (function 0, device 3) followed by a terminator.
    let chain = DevicePath::new1(pci_node(0, 3));
    let bytes = chain.as_bytes();
    assert_eq!(chain_byte_length(bytes, 0), Ok(10));
    assert_eq!(bytes.len(), 10);

    let d = describe(bytes, 0).unwrap();
    assert_eq!(d.major, 0x01);
    assert_eq!(d.major_name, "Hardware");
    assert_eq!(d.sub, 1);
    assert_eq!(d.sub_name.as_deref(), Some("PCI"));
    assert_eq!(d.total_length, 6);
    assert!(matches!(
        d.data,
        DescribedData::Pci {
            function: 0,
            device: 3
        }
    ));
}

#[test]
fn mac_scenario() {
    // A MAC node with address 02:00:00:00:00:01, Ethernet.
    let chain = DevicePath::new1(mac_node([0x02, 0, 0, 0, 0, 0x01]));
    let d = describe(chain.as_bytes(), 0).unwrap();
    assert_eq!(d.major_name, "Messaging");
    assert_eq!(d.sub_name.as_deref(), Some("MAC"));
    match d.data {
        DescribedData::Mac { address, iftype } => {
            assert_eq!(address, "02:00:00:00:00:01");
            assert_eq!(iftype, 1);
        }
        other => panic!("expected a MAC rendering, got {:?}", other),
    }
}

#[test]
fn unrecognized_media_subtype() {
    // Media sub-type 99 is outside the known set: describe shows the raw
    // code and decodes no payload, and it does not fail.
    let payload: Vec<u8> = vec![1, 2, 3];
    let chain = build_single(DeviceType::Media, 99, &payload).unwrap();
    let d = describe(chain.as_bytes(), 0).unwrap();
    assert_eq!(d.major_name, "Media");
    assert_eq!(d.sub, 99);
    assert_eq!(d.sub_name, None);
    assert!(matches!(d.data, DescribedData::Raw));
}

#[test]
fn build_many_preserves_order() {
    // Three nodes: walking visits them in insertion order, terminator last.
    let items = vec![pci_node(0, 3), acpi_node(1, 2), mac_node([1, 2, 3, 4, 5, 6])];
    let chain = build_many(&items);
    let bytes = chain.as_bytes();
    let visited = walk(bytes, 0).unwrap();
    assert_eq!(visited, vec![0, 6, 18, 55]);

    let h0 = read_header(bytes, 0).unwrap();
    assert_eq!((h0.device_type, h0.sub_type, h0.length), (0x01, 1, 6));
    let h1 = read_header(bytes, 6).unwrap();
    assert_eq!((h1.device_type, h1.sub_type, h1.length), (0x02, 1, 12));
    let h2 = read_header(bytes, 18).unwrap();
    assert_eq!((h2.device_type, h2.sub_type, h2.length), (0x03, 11, 37));
    let h3 = read_header(bytes, 55).unwrap();
    assert_eq!((h3.device_type, h3.sub_type, h3.length), (0x7f, 0xff, 4));
}

#[test]
fn terminator_invariant() {
    // Every built chain ends in End / EndEntire.
    let single = DevicePath::new1(acpi_node(7, 8));
    let visited = single.walk();
    let last = *visited.last().unwrap();
    let h = read_header(single.as_bytes(), last).unwrap();
    assert_eq!(h.device_type, 0x7f);
    assert_eq!(h.sub_type, 0xff);

    let many = build_many(&vec![pci_node(1, 1), pci_node(2, 2)]);
    let visited = many.walk();
    let last = *visited.last().unwrap();
    let h = read_header(many.as_bytes(), last).unwrap();
    assert_eq!(h.device_type, 0x7f);
    assert_eq!(h.sub_type, 0xff);
}

#[test]
fn length_additivity() {
    // Node sizes 6, 12 and 37 sum with the 4-byte terminator to 59.
    let items = vec![pci_node(0, 1), acpi_node(3, 4), mac_node([9, 9, 9, 9, 9, 9])];
    assert_eq!(items[0].len(), 6);
    assert_eq!(items[1].len(), 12);
    assert_eq!(items[2].len(), 37);
    let chain = build_many(&items);
    assert_eq!(chain_byte_length(chain.as_bytes(), 0), Ok(59));
    assert_eq!(chain.byte_length(), 59);
}

#[test]
fn empty_build_many_is_bare_terminator() {
    let chain = build_many(&vec![]);
    assert_eq!(chain.as_bytes().as_slice(), &[0x7f, 0xff, 4, 0]);
    assert_eq!(chain.walk(), vec![0]);
    assert_eq!(chain.byte_length(), 4);
}

#[test]
fn append_semantics() {
    // append(A, B) drops A's terminator and keeps B whole.
    let a = DevicePath::new1(pci_node(0, 3));
    let b = build_many(&vec![acpi_node(1, 2), mac_node([1, 2, 3, 4, 5, 6])]);
    let la = a.byte_length();
    let lb = b.byte_length();
    let joined = DevicePath::append(&a, &b);
    assert_eq!(joined.byte_length(), la + lb - 4);
    assert_eq!(joined.byte_length(), 10 + 53 - 4);

    // A's node at its old offset, B's nodes moved up behind it.
    let visited = joined.walk();
    assert_eq!(visited, vec![0, 6, 18, 55]);
    let h0 = read_header(joined.as_bytes(), 0).unwrap();
    assert_eq!((h0.device_type, h0.sub_type), (0x01, 1));
    let h1 = read_header(joined.as_bytes(), 6).unwrap();
    assert_eq!((h1.device_type, h1.sub_type), (0x02, 1));
    let h2 = read_header(joined.as_bytes(), 18).unwrap();
    assert_eq!((h2.device_type, h2.sub_type), (0x03, 11));
    let h3 = read_header(joined.as_bytes(), 55).unwrap();
    assert_eq!((h3.device_type, h3.sub_type), (0x7f, 0xff));

    // Both inputs are still whole chains.
    assert_eq!(a.byte_length(), la);
    assert_eq!(b.byte_length(), lb);
}

#[test]
fn new2_builds_two_nodes() {
    let chain = DevicePath::new2(pci_node(4, 5), acpi_node(6, 7));
    let visited = chain.walk();
    assert_eq!(visited, vec![0, 6, 18]);
    let h = chain.first();
    assert_eq!((h.device_type, h.sub_type, h.len()), (0x01, 1, 6));
}

#[test]
fn instance_separator_continues_traversal() {
    // An End / EndInstance node may stand inside a chain; traversal passes
    // over it to the next instance.
    let sep = DevicePathPayload::create(
        DeviceType::End,
        EndPathSubType::EndInstance.to_u8(),
        (),
    )
    .unwrap();
    let chain = build_many(&vec![pci_node(0, 0), sep, acpi_node(1, 1)]);
    let visited = chain.walk();
    assert_eq!(visited, vec![0, 6, 10, 22]);
    let h = read_header(chain.as_bytes(), 6).unwrap();
    assert_eq!((h.device_type, h.sub_type, h.length), (0x7f, 0x01, 4));
}
